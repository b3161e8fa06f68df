//! The document-tree rewrite pipeline.
//!
//! A run builds one engine, binds the book layout as the global `book`,
//! and visits every node of the tree exactly once, depth-first: a chapter
//! gets a fresh chapter view bound as the global `chapter` before its name
//! and then its content are rendered (content renders get the configured
//! prelude prepended); a part title is rendered like a name field with no
//! chapter binding active; a separator passes through unmodified. A failed
//! render is never fatal: the field keeps its pre-render text and the error
//! is collected for the host to log. Summary reconciliation, when
//! configured, re-templates the summary text the host read and lets the
//! host re-parse it and reload the whole book from the result before the
//! traversal starts.

use crate::config::MiniJinjaConfig;
use crate::engine::env_add_global_map;
use crate::engine::env_globals;
use crate::engine::env_policy;
use crate::engine::env_remove_global;
use crate::engine::env_render_str;
use crate::engine::env_template_dir;
use crate::extra_globals::BookObject;
use crate::extra_globals::ChapterObject;
use crate::extra_globals::opt_pair;
use crate::extra_globals::opt_seq_pair;
use crate::extra_globals::opt_view;
use crate::extra_globals::pairs_view;
use crate::extra_globals::spec_opt_parent;
use crate::paths::spec_join;
use crate::paths::join_path;
use vstd::prelude::*;
use vstd::string::StrSliceExecFns;
use vstd::string::StringExecFns;

verus! {

/// One node of the document tree: a chapter with its recursively owned
/// sub-items, a separator, or a part title.
#[derive(Debug, PartialEq)]
pub enum BookItem {
    Chapter(Chapter),
    Separator,
    PartTitle(String),
}

/// A chapter's rewritable state: its name and content, its optional
/// output-relative and source-relative paths, and its sub-items.
#[derive(Debug, PartialEq)]
pub struct Chapter {
    pub name: String,
    pub content: String,
    pub path: Option<String>,
    pub source_path: Option<String>,
    pub sub_items: Vec<BookItem>,
}

/// The rewrite relation on one node: the node kind is kept, a chapter
/// keeps its paths and the shape of its sub-items, and a separator is
/// untouched; only name, content and part-title text may differ.
pub open spec fn same_shape(a: BookItem, b: BookItem) -> bool
    decreases a,
{
    match (a, b) {
        (BookItem::Separator, BookItem::Separator) => true,
        (BookItem::PartTitle(_), BookItem::PartTitle(_)) => true,
        (BookItem::Chapter(c), BookItem::Chapter(d)) => c.path == d.path && c.source_path
            == d.source_path && c.sub_items@.len() == d.sub_items@.len() && (forall|i: int|
            0 <= i < c.sub_items@.len() ==> same_shape(c.sub_items@[i], d.sub_items@[i])),
        _ => false,
    }
}

/// How many field renders a node's visit performs, and so how many render
/// errors it can contribute: two for a chapter (name and content) plus its
/// sub-items' renders, one for a part title, none for a separator.
pub open spec fn render_slots(item: BookItem) -> nat
    decreases item,
{
    match item {
        BookItem::Separator => 0,
        BookItem::PartTitle(_) => 1,
        BookItem::Chapter(c) => 2 + render_slots_seq(c.sub_items@),
    }
}

/// The render slots of a sequence of nodes.
pub open spec fn render_slots_seq(items: Seq<BookItem>) -> nat
    decreases items,
{
    if items.len() == 0 {
        0
    } else {
        render_slots(items[0]) + render_slots_seq(items.drop_first())
    }
}

proof fn lemma_render_slots_take_succ(items: Seq<BookItem>, k: int)
    requires
        0 <= k < items.len(),
    ensures
        render_slots_seq(items.take(k + 1)) == render_slots_seq(items.take(k)) + render_slots(
            items[k],
        ),
    decreases k,
{
    if k == 0 {
        assert(items.take(1)[0] == items[0]);
        assert(items.take(1).drop_first() =~= Seq::<BookItem>::empty());
        assert(items.take(0) =~= Seq::<BookItem>::empty());
    } else {
        lemma_render_slots_take_succ(items.drop_first(), k - 1);
        assert(items.take(k + 1)[0] == items[0]);
        assert(items.take(k + 1).drop_first() =~= items.drop_first().take(k));
        assert(items.take(k)[0] == items[0]);
        assert(items.take(k).drop_first() =~= items.drop_first().take(k - 1));
        assert(items.drop_first()[k - 1] == items[k]);
    }
}

/// The pair list bound as the chapter view for `c`'s renders: the name
/// always, the paths and their parent directories where present.
pub open spec fn spec_chapter_binding(c: Chapter) -> Seq<(Seq<char>, Seq<char>)> {
    seq![("name"@, c.name@)] + opt_seq_pair("path"@, opt_view(c.path)) + opt_seq_pair(
        "dir"@,
        spec_opt_parent(c.path),
    ) + opt_seq_pair("source_path"@, opt_view(c.source_path)) + opt_seq_pair(
        "source_dir"@,
        spec_opt_parent(c.source_path),
    )
}

/// The engine's transient chapter binding: the pair list bound under the
/// global `chapter`, or absent.
pub open spec fn chapter_slot(env: minijinja::Environment<'static>) -> Option<
    Seq<(Seq<char>, Seq<char>)>,
> {
    let g = env_globals(env);
    if g.dom().contains("chapter"@) {
        Some(g["chapter"@])
    } else {
        None
    }
}

/// The chapter binding after one node's visit, given the binding before
/// it: a separator changes nothing, a part title clears the slot, and a
/// chapter binds its own view and then lets its sub-items act in order.
pub open spec fn chapter_slot_after(
    item: BookItem,
    before: Option<Seq<(Seq<char>, Seq<char>)>>,
) -> Option<Seq<(Seq<char>, Seq<char>)>>
    decreases item,
{
    match item {
        BookItem::Separator => before,
        BookItem::PartTitle(_) => None,
        BookItem::Chapter(c) => chapter_slot_after_seq(
            c.sub_items@,
            Some(spec_chapter_binding(c)),
        ),
    }
}

/// The chapter binding after a sequence of nodes, visited in order.
pub open spec fn chapter_slot_after_seq(
    items: Seq<BookItem>,
    before: Option<Seq<(Seq<char>, Seq<char>)>>,
) -> Option<Seq<(Seq<char>, Seq<char>)>>
    decreases items,
{
    if items.len() == 0 {
        before
    } else {
        chapter_slot_after_seq(items.drop_first(), chapter_slot_after(items[0], before))
    }
}

proof fn lemma_chapter_slot_take_succ(
    items: Seq<BookItem>,
    k: int,
    before: Option<Seq<(Seq<char>, Seq<char>)>>,
)
    requires
        0 <= k < items.len(),
    ensures
        chapter_slot_after_seq(items.take(k + 1), before) == chapter_slot_after(
            items[k],
            chapter_slot_after_seq(items.take(k), before),
        ),
    decreases k,
{
    let b1 = chapter_slot_after(items[0], before);
    if k == 0 {
        assert(items.take(1)[0] == items[0]);
        assert(items.take(1).drop_first() =~= Seq::<BookItem>::empty());
        assert(items.take(0) =~= Seq::<BookItem>::empty());
        assert(chapter_slot_after_seq(items.take(0), before) == before);
        assert(chapter_slot_after_seq(items.take(1), before) == chapter_slot_after_seq(
            Seq::<BookItem>::empty(),
            b1,
        ));
        assert(chapter_slot_after_seq(Seq::<BookItem>::empty(), b1) == b1);
    } else {
        assert(items.take(k + 1)[0] == items[0]);
        assert(items.take(k + 1).drop_first() =~= items.drop_first().take(k));
        assert(items.take(k)[0] == items[0]);
        assert(items.take(k).drop_first() =~= items.drop_first().take(k - 1));
        assert(items.drop_first()[k - 1] == items[k]);
        lemma_chapter_slot_take_succ(items.drop_first(), k - 1, b1);
        assert(chapter_slot_after_seq(items.take(k + 1), before) == chapter_slot_after_seq(
            items.drop_first().take(k),
            b1,
        ));
        assert(chapter_slot_after_seq(items.take(k), before) == chapter_slot_after_seq(
            items.drop_first().take(k - 1),
            b1,
        ));
    }
}

/// The text a render acts on: the field itself, with the configured
/// prelude and a newline prepended for content renders when the prelude is
/// non-empty.
pub open spec fn spec_render_input(prelude_string: Seq<char>, s: Seq<char>, prelude: bool) -> Seq<
    char,
> {
    if prelude && prelude_string.len() > 0 {
        prelude_string + seq!['\n'] + s
    } else {
        s
    }
}

pub fn render_input(conf: &MiniJinjaConfig, s: &String, prelude: bool) -> (r: String)
    ensures
        r@ == spec_render_input(conf.prelude_string@, s@, prelude),
{
    if prelude && conf.prelude_string.as_str().unicode_len() > 0 {
        let mut t = conf.prelude_string.clone();
        proof {
            reveal_strlit("\n");
        }
        t.append("\n");
        t.append(s.as_str());
        assert(t@ =~= conf.prelude_string@ + seq!['\n'] + s@);
        t
    } else {
        s.clone()
    }
}

/// Renders `s` in place as a template against the configured variables and
/// the engine's globals; `prelude` selects the content-render input of
/// `spec_render_input`. A render failure leaves the field in its pre-render
/// state and is handed back instead of aborting.
pub fn eval_in_place(
    conf: &MiniJinjaConfig,
    env: &minijinja::Environment<'static>,
    s: &mut String,
    prelude: bool,
) -> (err: Option<minijinja::Error>)
    ensures
        err.is_some() ==> final(s)@ == old(s)@,
{
    let input = render_input(conf, s, prelude);
    match env_render_str(env, input.as_str(), &conf.variables) {
        Ok(res) => {
            *s = res;
            None
        },
        Err(e) => Some(e),
    }
}

/// The configuration, or the fatal startup error of a run whose required
/// configuration section is absent.
pub fn require_config(conf: Option<MiniJinjaConfig>) -> (r: Result<MiniJinjaConfig, String>)
    ensures
        match r {
            Ok(c) => conf == Some(c),
            Err(m) => conf is None && m@ == "missing config section for minijinja"@,
        },
{
    match conf {
        Some(c) => Ok(c),
        None => Err(String::from_str("missing config section for minijinja")),
    }
}

/// The summary file's path under the source directory.
pub fn summary_path(src_dir: &str) -> (r: String)
    ensures
        r@ == spec_join(src_dir@, "SUMMARY.md"@),
{
    join_path(src_dir, "SUMMARY.md")
}

/// Binds the book layout's four pairs as the template global `book`; done
/// once before any render of a run, including a summary render.
pub fn bind_book_global(env: &mut minijinja::Environment<'static>, book: &BookObject)
    ensures
        env_globals(*final(env)) == env_globals(*old(env)).insert("book"@, book.spec_pairs()),
        env_policy(*final(env)) == env_policy(*old(env)),
        env_template_dir(*final(env)) == env_template_dir(*old(env)),
{
    let pairs = book.pairs();
    env_add_global_map(env, "book", &pairs);
}

fn clone_opt_string(o: &Option<String>) -> (r: Option<String>)
    ensures
        opt_view(r) == opt_view(*o),
{
    match o {
        Some(p) => Some(p.clone()),
        None => None,
    }
}

fn rewrite_item(
    conf: &MiniJinjaConfig,
    env: &mut minijinja::Environment<'static>,
    item: BookItem,
    errs: &mut Vec<minijinja::Error>,
) -> (r: BookItem)
    ensures
        same_shape(item, r),
        old(errs)@.len() <= final(errs)@.len() <= old(errs)@.len() + render_slots(item),
        env_policy(*final(env)) == env_policy(*old(env)),
        env_template_dir(*final(env)) == env_template_dir(*old(env)),
        env_globals(*final(env)).remove("chapter"@) == env_globals(*old(env)).remove("chapter"@),
        chapter_slot(*final(env)) == chapter_slot_after(item, chapter_slot(*old(env))),
    decreases item,
{
    let ghost gitem = item;
    let ghost g0 = env_globals(*env);
    match item {
        BookItem::Separator => BookItem::Separator,
        BookItem::PartTitle(title) => {
            env_remove_global(env, "chapter");
            proof {
                assert(g0.remove("chapter"@).remove("chapter"@) =~= g0.remove("chapter"@));
                assert(chapter_slot(*env) is None);
            }
            let mut title2 = title;
            if let Some(e) = eval_in_place(conf, env, &mut title2, false) {
                errs.push(e);
            }
            BookItem::PartTitle(title2)
        },
        BookItem::Chapter(c) => {
            let ghost gc = c;
            let Chapter { name, content, path, source_path, sub_items } = c;
            let chobj = ChapterObject::new(
                name.clone(),
                clone_opt_string(&path),
                clone_opt_string(&source_path),
            );
            let chpairs = chobj.pairs();
            env_add_global_map(env, "chapter", &chpairs);
            proof {
                assert(g0.insert("chapter"@, pairs_view(chpairs@)).remove("chapter"@) =~= g0.remove(
                    "chapter"@,
                ));
                assert(opt_pair("path"@, chobj.path) =~= opt_seq_pair(
                    "path"@,
                    opt_view(gc.path),
                ));
                assert(opt_pair("dir"@, chobj.dir) =~= opt_seq_pair(
                    "dir"@,
                    spec_opt_parent(gc.path),
                ));
                assert(opt_pair("source_path"@, chobj.source_path) =~= opt_seq_pair(
                    "source_path"@,
                    opt_view(gc.source_path),
                ));
                assert(opt_pair("source_dir"@, chobj.source_dir) =~= opt_seq_pair(
                    "source_dir"@,
                    spec_opt_parent(gc.source_path),
                ));
                assert(chobj.spec_pairs() =~= spec_chapter_binding(gc));
                assert(chapter_slot(*env) == Some(spec_chapter_binding(gc)));
            }
            let mut name2 = name;
            if let Some(e) = eval_in_place(conf, env, &mut name2, false) {
                errs.push(e);
            }
            let mut content2 = content;
            if let Some(e) = eval_in_place(conf, env, &mut content2, true) {
                errs.push(e);
            }
            proof {
                assert(decreases_to!(gitem => gc));
                assert(decreases_to!(gc => gc.sub_items));
                assert(render_slots(gitem) == 2 + render_slots_seq(gc.sub_items@));
            }
            let new_subs = rewrite_items(conf, env, sub_items, errs);
            BookItem::Chapter(
                Chapter {
                    name: name2,
                    content: content2,
                    path,
                    source_path,
                    sub_items: new_subs,
                },
            )
        },
    }
}

#[verifier::loop_isolation(false)]
fn rewrite_items(
    conf: &MiniJinjaConfig,
    env: &mut minijinja::Environment<'static>,
    items: Vec<BookItem>,
    errs: &mut Vec<minijinja::Error>,
) -> (r: Vec<BookItem>)
    ensures
        r@.len() == items@.len(),
        forall|i: int| 0 <= i < items@.len() ==> same_shape(items@[i], r@[i]),
        old(errs)@.len() <= final(errs)@.len() <= old(errs)@.len() + render_slots_seq(items@),
        env_policy(*final(env)) == env_policy(*old(env)),
        env_template_dir(*final(env)) == env_template_dir(*old(env)),
        env_globals(*final(env)).remove("chapter"@) == env_globals(*old(env)).remove("chapter"@),
        chapter_slot(*final(env)) == chapter_slot_after_seq(items@, chapter_slot(*old(env))),
    decreases items,
{
    let ghost gitems = items;
    let ghost e0: Seq<minijinja::Error> = errs@;
    let ghost genv0 = *env;
    proof {
        assert(gitems@.take(0) =~= Seq::<BookItem>::empty());
    }
    let mut rest = items;
    let mut out: Vec<BookItem> = Vec::new();
    while rest.len() > 0
        invariant
            out@.len() + rest@.len() == gitems@.len(),
            rest@ == gitems@.skip(out@.len() as int),
            forall|i: int| 0 <= i < out@.len() ==> same_shape(gitems@[i], out@[i]),
            e0.len() <= errs@.len() <= e0.len() + render_slots_seq(
                gitems@.take(out@.len() as int),
            ),
            env_policy(*env) == env_policy(genv0),
            env_template_dir(*env) == env_template_dir(genv0),
            env_globals(*env).remove("chapter"@) == env_globals(genv0).remove("chapter"@),
            chapter_slot(*env) == chapter_slot_after_seq(
                gitems@.take(out@.len() as int),
                chapter_slot(genv0),
            ),
        decreases rest@.len(),
    {
        let ghost k: int = out@.len() as int;
        let sub = rest.remove(0);
        proof {
            assert(gitems@.skip(k)[0] == gitems@[k]);
            assert(gitems@.skip(k).remove(0) =~= gitems@.skip(k + 1));
            assert(decreases_to!(gitems => gitems@));
            assert(decreases_to!(gitems@ => gitems@[k]));
            assert(sub == gitems@[k]);
            assert(decreases_to!(gitems => sub));
        }
        let sub2 = rewrite_item(conf, env, sub, errs);
        out.push(sub2);
        proof {
            lemma_render_slots_take_succ(gitems@, k);
            lemma_chapter_slot_take_succ(gitems@, k, chapter_slot(genv0));
        }
    }
    proof {
        assert(gitems@.take(gitems@.len() as int) =~= gitems@);
    }
    out
}

/// The preprocessor: one value whose `run` performs the per-node rewrite
/// pass of a whole tree.
pub struct MiniJinjaPreprocessor;

impl MiniJinjaPreprocessor {
    /// The preprocessor's name, which also names its configuration section.
    pub fn name(&self) -> (r: &'static str)
        ensures
            r@ == "minijinja"@,
    {
        "minijinja"
    }

    /// The per-node rewrite pass: binds `book`, then visits every node
    /// depth-first as the module description says. The result has the same
    /// shape as the input — node for node the same kind, chapters keeping
    /// their paths and sub-item structure — and the collected render errors
    /// are handed back for logging; they never abort the pass, and their
    /// number is at most the number of field renders. Of the engine, the
    /// pass binds `book`, rebinds only the transient `chapter` slot, and
    /// leaves the policy, the loader and every other global unchanged.
    pub fn run(
        &self,
        conf: &MiniJinjaConfig,
        env: &mut minijinja::Environment<'static>,
        book: &BookObject,
        items: Vec<BookItem>,
    ) -> (r: (Vec<BookItem>, Vec<minijinja::Error>))
        ensures
            r.0@.len() == items@.len(),
            forall|i: int| 0 <= i < items@.len() ==> same_shape(items@[i], r.0@[i]),
            r.1@.len() <= render_slots_seq(items@),
            env_policy(*final(env)) == env_policy(*old(env)),
            env_template_dir(*final(env)) == env_template_dir(*old(env)),
            env_globals(*final(env)).remove("chapter"@) == env_globals(*old(env)).insert(
                "book"@,
                book.spec_pairs(),
            ).remove("chapter"@),
            chapter_slot(*final(env)) == chapter_slot_after_seq(items@, chapter_slot(*old(env))),
    {
        let ghost genv0 = *env;
        bind_book_global(env, book);
        proof {
            reveal_strlit("book");
            reveal_strlit("chapter");
            assert("book"@.len() == 4);
            assert("chapter"@.len() == 7);
            assert(chapter_slot(*env) == chapter_slot(genv0));
        }
        let mut errs: Vec<minijinja::Error> = Vec::new();
        let out = rewrite_items(conf, env, items, &mut errs);
        (out, errs)
    }
}

} // verus!
