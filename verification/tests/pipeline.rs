use mdbook_minijinja::config::MiniJinjaConfig;
use mdbook_minijinja::config::UndefinedBehavior;
use mdbook_minijinja::extra_globals::BookObject;
use mdbook_minijinja::extra_globals::EnvironmentObject;
use mdbook_minijinja::preprocessor::eval_in_place;
use mdbook_minijinja::preprocessor::render_input;
use mdbook_minijinja::preprocessor::require_config;
use mdbook_minijinja::preprocessor::summary_path;
use mdbook_minijinja::preprocessor::BookItem;
use mdbook_minijinja::preprocessor::Chapter;
use mdbook_minijinja::preprocessor::MiniJinjaPreprocessor;

fn variables(pairs: &[(&str, &str)]) -> minijinja::Value {
    pairs
        .iter()
        .map(|(k, v)| (k.to_string(), minijinja::Value::from(*v)))
        .collect()
}

fn config(pairs: &[(&str, &str)], policy: UndefinedBehavior) -> MiniJinjaConfig {
    MiniJinjaConfig {
        preprocess_summary: false,
        variables: variables(pairs),
        undefined_behavior: policy,
        templates_dir: "templates".to_string(),
        prelude_string: String::new(),
        global_env: false,
    }
}

fn book() -> BookObject {
    BookObject::new("/proj", "src", "book", "templates")
}

fn no_env() -> EnvironmentObject {
    EnvironmentObject::new(Vec::new())
}

fn one_chapter(name: &str, content: &str) -> Vec<BookItem> {
    vec![BookItem::Chapter(Chapter {
        name: name.to_string(),
        content: content.to_string(),
        path: Some("ch.html".to_string()),
        source_path: Some("ch.md".to_string()),
        sub_items: Vec::new(),
    })]
}

fn chapter_content(items: &[BookItem]) -> &str {
    match &items[0] {
        BookItem::Chapter(c) => &c.content,
        _ => panic!("expected a chapter"),
    }
}

#[test]
fn hello_world_end_to_end() {
    let conf = config(&[("name", "World")], UndefinedBehavior::Strict);
    let mut env = conf.create_env("/proj", &no_env());
    let pre = MiniJinjaPreprocessor;
    let (out, errs) = pre.run(&conf, &mut env, &book(), one_chapter("Ch", "Hello {{ name }}!"));
    assert!(errs.is_empty());
    assert_eq!(chapter_content(&out), "Hello World!");
}

#[test]
fn plain_text_fields_are_unchanged() {
    let conf = config(&[], UndefinedBehavior::Strict);
    let mut env = conf.create_env("/proj", &no_env());
    let pre = MiniJinjaPreprocessor;
    let items = vec![
        BookItem::PartTitle("Part One".to_string()),
        BookItem::Chapter(Chapter {
            name: "Introduction".to_string(),
            content: "Plain text, no references.".to_string(),
            path: None,
            source_path: None,
            sub_items: Vec::new(),
        }),
        BookItem::Separator,
    ];
    let (out, errs) = pre.run(&conf, &mut env, &book(), items);
    assert!(errs.is_empty());
    assert_eq!(out[0], BookItem::PartTitle("Part One".to_string()));
    match &out[1] {
        BookItem::Chapter(c) => {
            assert_eq!(c.name, "Introduction".to_string());
            assert_eq!(c.content, "Plain text, no references.".to_string());
        }
        _ => panic!("expected a chapter"),
    }
    assert_eq!(out[2], BookItem::Separator);
}

#[test]
fn two_runs_give_identical_trees() {
    let make_items = || {
        vec![
            BookItem::PartTitle("{{ part }}".to_string()),
            BookItem::Chapter(Chapter {
                name: "{{ title }}".to_string(),
                content: "{{ title }} by {{ author }}".to_string(),
                path: Some("a.html".to_string()),
                source_path: Some("a.md".to_string()),
                sub_items: vec![BookItem::Chapter(Chapter {
                    name: "Sub".to_string(),
                    content: "{{ author }}".to_string(),
                    path: None,
                    source_path: None,
                    sub_items: Vec::new(),
                })],
            }),
            BookItem::Separator,
        ]
    };
    let pairs = [("part", "P"), ("title", "T"), ("author", "A")];
    let pre = MiniJinjaPreprocessor;

    let conf1 = config(&pairs, UndefinedBehavior::Strict);
    let mut env1 = conf1.create_env("/proj", &no_env());
    let (out1, errs1) = pre.run(&conf1, &mut env1, &book(), make_items());

    let conf2 = config(&pairs, UndefinedBehavior::Strict);
    let mut env2 = conf2.create_env("/proj", &no_env());
    let (out2, errs2) = pre.run(&conf2, &mut env2, &book(), make_items());

    assert!(errs1.is_empty());
    assert!(errs2.is_empty());
    assert_eq!(out1, out2);
}

#[test]
fn strict_undefined_leaves_field_and_reports_error() {
    let conf = config(&[], UndefinedBehavior::Strict);
    let mut env = conf.create_env("/proj", &no_env());
    let pre = MiniJinjaPreprocessor;
    let (out, errs) = pre.run(&conf, &mut env, &book(), one_chapter("Ch", "x{{ nope }}y"));
    assert_eq!(errs.len(), 1);
    assert_eq!(chapter_content(&out), "x{{ nope }}y");
}

#[test]
fn lenient_undefined_renders_empty() {
    let conf = config(&[], UndefinedBehavior::Lenient);
    let mut env = conf.create_env("/proj", &no_env());
    let pre = MiniJinjaPreprocessor;
    let (out, errs) = pre.run(&conf, &mut env, &book(), one_chapter("Ch", "x{{ nope }}y"));
    assert!(errs.is_empty());
    assert_eq!(chapter_content(&out), "xy");
}

#[test]
fn chainable_undefined_allows_deep_access() {
    let conf = config(&[], UndefinedBehavior::Chainable);
    let mut env = conf.create_env("/proj", &no_env());
    let pre = MiniJinjaPreprocessor;
    let (out, errs) = pre.run(&conf, &mut env, &book(), one_chapter("Ch", "x{{ nope.deep.er }}y"));
    assert!(errs.is_empty());
    assert_eq!(chapter_content(&out), "xy");
}

#[test]
fn lenient_undefined_chain_fails_and_leaves_field() {
    let conf = config(&[], UndefinedBehavior::Lenient);
    let mut env = conf.create_env("/proj", &no_env());
    let pre = MiniJinjaPreprocessor;
    let (out, errs) = pre.run(&conf, &mut env, &book(), one_chapter("Ch", "x{{ nope.deep }}y"));
    assert_eq!(errs.len(), 1);
    assert_eq!(chapter_content(&out), "x{{ nope.deep }}y");
}

#[test]
fn render_failure_does_not_stop_the_run() {
    let conf = config(&[("ok", "fine")], UndefinedBehavior::Strict);
    let mut env = conf.create_env("/proj", &no_env());
    let pre = MiniJinjaPreprocessor;
    let items = vec![
        BookItem::Chapter(Chapter {
            name: "First".to_string(),
            content: "{{ broken }}".to_string(),
            path: None,
            source_path: None,
            sub_items: Vec::new(),
        }),
        BookItem::Chapter(Chapter {
            name: "Second".to_string(),
            content: "{{ ok }}".to_string(),
            path: None,
            source_path: None,
            sub_items: Vec::new(),
        }),
    ];
    let (out, errs) = pre.run(&conf, &mut env, &book(), items);
    assert_eq!(errs.len(), 1);
    match (&out[0], &out[1]) {
        (BookItem::Chapter(a), BookItem::Chapter(b)) => {
            assert_eq!(a.content, "{{ broken }}".to_string());
            assert_eq!(b.content, "fine".to_string());
        }
        _ => panic!("expected two chapters"),
    }
}

#[test]
fn prelude_is_prepended_to_content_renders_only() {
    let mut conf = config(&[], UndefinedBehavior::Strict);
    conf.prelude_string = "{% set who = 'all' %}".to_string();
    let mut env = conf.create_env("/proj", &no_env());
    let pre = MiniJinjaPreprocessor;
    let items = one_chapter("Name {{ who }}", "Hi {{ who }}");
    let (out, errs) = pre.run(&conf, &mut env, &book(), items);
    // the name render has no prelude, so `who` is undefined there
    assert_eq!(errs.len(), 1);
    match &out[0] {
        BookItem::Chapter(c) => {
            assert_eq!(c.name, "Name {{ who }}".to_string());
            assert_eq!(c.content, "\nHi all".to_string());
        }
        _ => panic!("expected a chapter"),
    }
}

#[test]
fn chapter_binding_exposes_chapter_attributes() {
    let conf = config(&[], UndefinedBehavior::Strict);
    let mut env = conf.create_env("/proj", &no_env());
    let pre = MiniJinjaPreprocessor;
    let items = vec![BookItem::Chapter(Chapter {
        name: "Intro".to_string(),
        content: "{{ chapter.name }} at {{ chapter.source_dir }}".to_string(),
        path: Some("guide/intro.html".to_string()),
        source_path: Some("guide/intro.md".to_string()),
        sub_items: Vec::new(),
    })];
    let (out, errs) = pre.run(&conf, &mut env, &book(), items);
    assert!(errs.is_empty());
    assert_eq!(chapter_content(&out), "Intro at guide");
}

#[test]
fn each_chapter_sees_only_its_own_binding() {
    let conf = config(&[], UndefinedBehavior::Strict);
    let mut env = conf.create_env("/proj", &no_env());
    let pre = MiniJinjaPreprocessor;
    let items = vec![
        BookItem::Chapter(Chapter {
            name: "One".to_string(),
            content: "{{ chapter.name }}".to_string(),
            path: None,
            source_path: None,
            sub_items: Vec::new(),
        }),
        BookItem::Chapter(Chapter {
            name: "Two".to_string(),
            content: "{{ chapter.name }}".to_string(),
            path: None,
            source_path: None,
            sub_items: Vec::new(),
        }),
    ];
    let (out, errs) = pre.run(&conf, &mut env, &book(), items);
    assert!(errs.is_empty());
    match (&out[0], &out[1]) {
        (BookItem::Chapter(a), BookItem::Chapter(b)) => {
            assert_eq!(a.content, "One".to_string());
            assert_eq!(b.content, "Two".to_string());
        }
        _ => panic!("expected two chapters"),
    }
}

#[test]
fn part_title_renders_without_chapter_binding() {
    let conf = config(&[], UndefinedBehavior::Chainable);
    let mut env = conf.create_env("/proj", &no_env());
    let pre = MiniJinjaPreprocessor;
    let items = vec![
        BookItem::Chapter(Chapter {
            name: "One".to_string(),
            content: "c".to_string(),
            path: None,
            source_path: None,
            sub_items: Vec::new(),
        }),
        BookItem::PartTitle("[{{ chapter.name }}]".to_string()),
    ];
    let (out, errs) = pre.run(&conf, &mut env, &book(), items);
    assert!(errs.is_empty());
    // the earlier chapter's binding is gone by the time the title renders
    assert_eq!(out[1], BookItem::PartTitle("[]".to_string()));
}

#[test]
fn sub_chapters_are_rendered_depth_first() {
    let conf = config(&[("v", "x")], UndefinedBehavior::Strict);
    let mut env = conf.create_env("/proj", &no_env());
    let pre = MiniJinjaPreprocessor;
    let items = vec![BookItem::Chapter(Chapter {
        name: "Parent".to_string(),
        content: "p{{ v }}".to_string(),
        path: None,
        source_path: None,
        sub_items: vec![BookItem::Chapter(Chapter {
            name: "Child {{ v }}".to_string(),
            content: "c{{ v }}".to_string(),
            path: None,
            source_path: None,
            sub_items: Vec::new(),
        })],
    })];
    let (out, errs) = pre.run(&conf, &mut env, &book(), items);
    assert!(errs.is_empty());
    match &out[0] {
        BookItem::Chapter(c) => {
            assert_eq!(c.content, "px".to_string());
            match &c.sub_items[0] {
                BookItem::Chapter(s) => {
                    assert_eq!(s.name, "Child x".to_string());
                    assert_eq!(s.content, "cx".to_string());
                }
                _ => panic!("expected a sub-chapter"),
            }
        }
        _ => panic!("expected a chapter"),
    }
}

#[test]
fn book_layout_is_visible_to_templates() {
    let conf = config(&[], UndefinedBehavior::Strict);
    let mut env = conf.create_env("/proj", &no_env());
    let pre = MiniJinjaPreprocessor;
    let (out, errs) = pre.run(
        &conf,
        &mut env,
        &book(),
        one_chapter("Ch", "{{ book.src_dir }}|{{ book.build_dir }}"),
    );
    assert!(errs.is_empty());
    assert_eq!(chapter_content(&out), "/proj/src|/proj/book");
}

#[test]
fn environment_snapshot_global_when_enabled() {
    let mut conf = config(&[], UndefinedBehavior::Strict);
    conf.global_env = true;
    let snapshot = EnvironmentObject::new(vec![(
        "MJ_TEST_VAR".to_string(),
        "42".to_string(),
    )]);
    let mut env = conf.create_env("/proj", &snapshot);
    let pre = MiniJinjaPreprocessor;
    let (out, errs) = pre.run(&conf, &mut env, &book(), one_chapter("Ch", "{{ env.MJ_TEST_VAR }}"));
    assert!(errs.is_empty());
    assert_eq!(chapter_content(&out), "42");
}

#[test]
fn environment_global_absent_when_disabled() {
    let conf = config(&[], UndefinedBehavior::Strict);
    let mut env = conf.create_env("/proj", &no_env());
    let pre = MiniJinjaPreprocessor;
    let (out, errs) = pre.run(&conf, &mut env, &book(), one_chapter("Ch", "{{ env.HOME }}"));
    assert_eq!(errs.len(), 1);
    assert_eq!(chapter_content(&out), "{{ env.HOME }}");
}

#[test]
fn eval_in_place_renders_summary_text() {
    let conf = config(&[("title", "Guide")], UndefinedBehavior::Strict);
    let env = conf.create_env("/proj", &no_env());
    let mut text = "# Summary\n- [{{ title }}](guide.md)\n".to_string();
    let err = eval_in_place(&conf, &env, &mut text, false);
    assert!(err.is_none());
    // the engine strips one trailing newline from its output
    assert_eq!(text, "# Summary\n- [Guide](guide.md)".to_string());
}

#[test]
fn eval_in_place_leaves_text_on_failure() {
    let conf = config(&[], UndefinedBehavior::Strict);
    let env = conf.create_env("/proj", &no_env());
    let mut text = "- [{{ missing }}]".to_string();
    let err = eval_in_place(&conf, &env, &mut text, false);
    assert!(err.is_some());
    assert_eq!(text, "- [{{ missing }}]".to_string());
}

#[test]
fn render_input_prepends_prelude_to_content_renders_only() {
    let mut conf = config(&[], UndefinedBehavior::Strict);
    conf.prelude_string = "PRE".to_string();
    assert_eq!(render_input(&conf, &"body".to_string(), true), "PRE\nbody".to_string());
    assert_eq!(render_input(&conf, &"body".to_string(), false), "body".to_string());
    conf.prelude_string = String::new();
    assert_eq!(render_input(&conf, &"body".to_string(), true), "body".to_string());
}

#[test]
fn missing_config_section_is_fatal() {
    match require_config(None) {
        Err(m) => assert_eq!(m, "missing config section for minijinja".to_string()),
        Ok(_) => panic!("expected the startup error"),
    }
}

#[test]
fn present_config_section_is_returned() {
    let conf = config(&[("a", "b")], UndefinedBehavior::Lenient);
    match require_config(Some(conf)) {
        Ok(c) => {
            assert_eq!(c.undefined_behavior, UndefinedBehavior::Lenient);
            assert!(!c.preprocess_summary);
        }
        Err(_) => panic!("expected the configuration back"),
    }
}

#[test]
fn summary_path_is_under_the_source_directory() {
    assert_eq!(summary_path("src"), "src/SUMMARY.md".to_string());
    assert_eq!(summary_path("/proj/src"), "/proj/src/SUMMARY.md".to_string());
}

#[test]
fn preprocessor_name() {
    assert_eq!(MiniJinjaPreprocessor.name(), "minijinja");
}
