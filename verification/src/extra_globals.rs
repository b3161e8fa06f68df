//! The context objects exposed to templates: a frozen snapshot of the
//! process environment, the current chapter, and the book's directory
//! layout. Each is a read-only, string-keyed view with an enumerable key
//! set; unknown keys resolve to absent, deferring strict-versus-lenient
//! handling to the engine's undefined-variable policy.

use crate::paths::parent_of;
use crate::paths::spec_parent;
use crate::paths::spec_resolve_to_root;
use crate::paths::resolve_to_root;
use crate::strings::str_eq;
use vstd::prelude::*;
use vstd::string::StringExecFns;

verus! {

/// The view of an optional string as an optional character sequence.
pub open spec fn opt_view(o: Option<String>) -> Option<Seq<char>> {
    match o {
        Some(s) => Some(s@),
        None => None,
    }
}

/// Pairwise-distinct keys: what makes an ordered pair list a mapping.
pub open spec fn unique_keys(entries: Seq<(String, String)>) -> bool {
    forall|i: int, j: int| 0 <= i < j < entries.len() ==> entries[i].0@ != entries[j].0@
}

/// First-match lookup of `key` among ordered `(key, value)` entries.
pub open spec fn spec_lookup(entries: Seq<(String, String)>, key: Seq<char>) -> Option<Seq<char>>
    decreases entries.len(),
{
    if entries.len() == 0 {
        None
    } else if entries[0].0@ == key {
        Some(entries[0].1@)
    } else {
        spec_lookup(entries.drop_first(), key)
    }
}

proof fn lemma_lookup_skip(entries: Seq<(String, String)>, key: Seq<char>, i: int)
    requires
        0 <= i <= entries.len(),
        forall|m: int| 0 <= m < i ==> entries[m].0@ != key,
    ensures
        spec_lookup(entries, key) == spec_lookup(entries.skip(i), key),
    decreases i,
{
    if i == 0 {
        assert(entries.skip(0) =~= entries);
    } else {
        lemma_lookup_skip(entries, key, i - 1);
        assert(entries.skip(i - 1)[0] == entries[i - 1]);
        assert(entries.skip(i - 1).drop_first() =~= entries.skip(i));
    }
}

/// First-match lookup of `key` in `entries`, scanning in order.
pub fn lookup_pairs(entries: &Vec<(String, String)>, key: &str) -> (r: Option<String>)
    ensures
        match r {
            Some(v) => spec_lookup(entries@, key@) == Some(v@),
            None => spec_lookup(entries@, key@) == None::<Seq<char>>,
        },
{
    let n: usize = entries.len();
    let mut i: usize = 0;
    while i < n
        invariant
            i <= n,
            n == entries@.len(),
            forall|m: int| 0 <= m < i ==> entries@[m].0@ != key@,
        decreases n - i,
    {
        if str_eq(entries[i].0.as_str(), key) {
            proof {
                lemma_lookup_skip(entries@, key@, i as int);
                assert(entries@.skip(i as int)[0] == entries@[i as int]);
            }
            return Some(entries[i].1.clone());
        }
        i = i + 1;
    }
    proof {
        lemma_lookup_skip(entries@, key@, n as int);
        assert(entries@.skip(n as int) =~= Seq::<(String, String)>::empty());
    }
    None
}

/// The lookup finds a key exactly when some entry carries it: the key
/// listing and the lookup agree, so `get_value` succeeds on every
/// enumerated key.
pub proof fn lemma_lookup_finds_present_key(entries: Seq<(String, String)>, key: Seq<char>)
    ensures
        (spec_lookup(entries, key) is Some) <==> (exists|i: int|
            0 <= i < entries.len() && entries[i].0@ == key),
    decreases entries.len(),
{
    if entries.len() == 0 {
    } else if entries[0].0@ == key {
        assert(entries[0].0@ == key);
    } else {
        lemma_lookup_finds_present_key(entries.drop_first(), key);
        if exists|i: int| 0 <= i < entries.len() && entries[i].0@ == key {
            let i = choose|i: int| 0 <= i < entries.len() && entries[i].0@ == key;
            assert(entries.drop_first()[i - 1] == entries[i]);
        }
        if spec_lookup(entries, key) is Some {
            let j = choose|j: int|
                0 <= j < entries.drop_first().len() && entries.drop_first()[j].0@ == key;
            assert(entries[j + 1] == entries.drop_first()[j]);
        }
    }
}

/// Under pairwise-distinct keys the lookup of a stored key returns the
/// value stored beside it.
pub proof fn lemma_lookup_unique_value(entries: Seq<(String, String)>, i: int)
    requires
        unique_keys(entries),
        0 <= i < entries.len(),
    ensures
        spec_lookup(entries, entries[i].0@) == Some(entries[i].1@),
    decreases entries.len(),
{
    if i > 0 {
        assert forall|a: int, b: int|
            0 <= a < b < entries.drop_first().len() implies entries.drop_first()[a].0@
            != entries.drop_first()[b].0@ by {
            assert(entries.drop_first()[a] == entries[a + 1]);
            assert(entries.drop_first()[b] == entries[b + 1]);
        }
        assert(unique_keys(entries.drop_first()));
        assert(entries.drop_first()[i - 1] == entries[i]);
        lemma_lookup_unique_value(entries.drop_first(), i - 1);
    }
}

/// A frozen snapshot of the process's environment variables, taken once at
/// the start of a run and passed in by the host; later changes to the real
/// process environment are not observed. Keys and values are both strings,
/// and the keys are pairwise distinct: the snapshot is a mapping.
pub struct EnvironmentObject {
    pub vars: Vec<(String, String)>,
}

impl EnvironmentObject {
    /// An environment view over the given snapshot pairs, whose keys must
    /// be distinct.
    pub fn new(vars: Vec<(String, String)>) -> (r: EnvironmentObject)
        requires
            unique_keys(vars@),
        ensures
            r.vars == vars,
    {
        EnvironmentObject { vars }
    }

    /// The value of the first entry whose key is `key`, or absent.
    pub fn get_value(&self, key: &str) -> (r: Option<String>)
        ensures
            match r {
                Some(v) => spec_lookup(self.vars@, key@) == Some(v@),
                None => spec_lookup(self.vars@, key@) == None::<Seq<char>>,
            },
    {
        lookup_pairs(&self.vars, key)
    }

    /// The snapshot's keys, in snapshot order; under the snapshot's
    /// distinct-keys invariant each key appears once.
    pub fn enumerate(&self) -> (r: Vec<String>)
        ensures
            r@.len() == self.vars@.len(),
            forall|m: int| 0 <= m < r@.len() ==> r@[m]@ == self.vars@[m].0@,
            unique_keys(self.vars@) ==> (forall|i: int, j: int|
                0 <= i < j < r@.len() ==> r@[i]@ != r@[j]@),
    {
        let n: usize = self.vars.len();
        let mut keys: Vec<String> = Vec::new();
        let mut i: usize = 0;
        while i < n
            invariant
                i <= n,
                n == self.vars@.len(),
                keys@.len() == i,
                forall|m: int| 0 <= m < i ==> keys@[m]@ == self.vars@[m].0@,
            decreases n - i,
        {
            keys.push(self.vars[i].0.clone());
            i = i + 1;
        }
        keys
    }
}

/// The current chapter as templates see it: its name and, where the chapter
/// has them, its output-relative path, the parent directory of that path,
/// its source-relative path, and the parent directory of the source path.
/// An absent path leaves the derived attributes absent too, which templates
/// can tell apart from an empty string.
pub struct ChapterObject {
    pub name: String,
    pub path: Option<String>,
    pub dir: Option<String>,
    pub source_path: Option<String>,
    pub source_dir: Option<String>,
}

impl ChapterObject {
    /// The chapter view derived from a chapter's name and paths; the `dir`
    /// attributes are the parents of the respective paths.
    pub fn new(name: String, path: Option<String>, source_path: Option<String>) -> (r:
        ChapterObject)
        ensures
            r.name == name,
            r.path == path,
            r.source_path == source_path,
            opt_view(r.dir) == (match path {
                Some(p) => spec_parent(p@),
                None => None::<Seq<char>>,
            }),
            opt_view(r.source_dir) == (match source_path {
                Some(p) => spec_parent(p@),
                None => None::<Seq<char>>,
            }),
    {
        let dir = match &path {
            Some(p) => parent_of(p.as_str()),
            None => None,
        };
        let source_dir = match &source_path {
            Some(p) => parent_of(p.as_str()),
            None => None,
        };
        ChapterObject { name, path, dir, source_path, source_dir }
    }

    /// The attribute named `key`, or absent for an unknown key or an absent
    /// attribute.
    pub fn get_value(&self, key: &str) -> (r: Option<String>)
        ensures
            opt_view(r) == self.spec_get(key@),
    {
        if str_eq(key, "name") {
            Some(self.name.clone())
        } else if str_eq(key, "path") {
            self.path.clone()
        } else if str_eq(key, "dir") {
            self.dir.clone()
        } else if str_eq(key, "source_path") {
            self.source_path.clone()
        } else if str_eq(key, "source_dir") {
            self.source_dir.clone()
        } else {
            None
        }
    }

    /// What `get_value` returns for each key.
    pub open spec fn spec_get(&self, key: Seq<char>) -> Option<Seq<char>> {
        if key == "name"@ {
            Some(self.name@)
        } else if key == "path"@ {
            opt_view(self.path)
        } else if key == "dir"@ {
            opt_view(self.dir)
        } else if key == "source_path"@ {
            opt_view(self.source_path)
        } else if key == "source_dir"@ {
            opt_view(self.source_dir)
        } else {
            None
        }
    }

    /// The declared attribute names.
    pub fn enumerate(&self) -> (r: Vec<String>)
        ensures
            r@.len() == 5,
            r@[0]@ == "name"@,
            r@[1]@ == "path"@,
            r@[2]@ == "dir"@,
            r@[3]@ == "source_path"@,
            r@[4]@ == "source_dir"@,
    {
        let mut keys: Vec<String> = Vec::new();
        keys.push(String::from_str("name"));
        keys.push(String::from_str("path"));
        keys.push(String::from_str("dir"));
        keys.push(String::from_str("source_path"));
        keys.push(String::from_str("source_dir"));
        keys
    }

    /// The present attributes as `(key, value)` pairs, in declaration
    /// order; absent attributes contribute no pair.
    pub fn pairs(&self) -> (r: Vec<(String, String)>)
        ensures
            pairs_view(r@) == self.spec_pairs(),
    {
        let mut out: Vec<(String, String)> = Vec::new();
        out.push((String::from_str("name"), self.name.clone()));
        if let Some(p) = &self.path {
            out.push((String::from_str("path"), p.clone()));
        }
        if let Some(d) = &self.dir {
            out.push((String::from_str("dir"), d.clone()));
        }
        if let Some(sp) = &self.source_path {
            out.push((String::from_str("source_path"), sp.clone()));
        }
        if let Some(sd) = &self.source_dir {
            out.push((String::from_str("source_dir"), sd.clone()));
        }
        assert(pairs_view(out@) =~= self.spec_pairs());
        out
    }

    /// The pair sequence that `pairs` returns, as character sequences.
    pub open spec fn spec_pairs(&self) -> Seq<(Seq<char>, Seq<char>)> {
        let base = seq![("name"@, self.name@)];
        let with_path = base + opt_pair("path"@, self.path);
        let with_dir = with_path + opt_pair("dir"@, self.dir);
        let with_sp = with_dir + opt_pair("source_path"@, self.source_path);
        with_sp + opt_pair("source_dir"@, self.source_dir)
    }
}

/// One `(key, value)` pair when the value is present, else nothing.
pub open spec fn opt_pair(key: Seq<char>, v: Option<String>) -> Seq<(Seq<char>, Seq<char>)> {
    match v {
        Some(s) => seq![(key, s@)],
        None => Seq::empty(),
    }
}

/// As `opt_pair`, over an optional character sequence.
pub open spec fn opt_seq_pair(key: Seq<char>, v: Option<Seq<char>>) -> Seq<(Seq<char>, Seq<char>)> {
    match v {
        Some(s) => seq![(key, s)],
        None => Seq::empty(),
    }
}

/// The parent of an optional path, absent when the path is.
pub open spec fn spec_opt_parent(o: Option<String>) -> Option<Seq<char>> {
    match o {
        Some(p) => spec_parent(p@),
        None => None,
    }
}

/// The view of a pair vector as pairs of character sequences.
pub open spec fn pairs_view(s: Seq<(String, String)>) -> Seq<(Seq<char>, Seq<char>)> {
    s.map_values(|p: (String, String)| (p.0@, p.1@))
}

/// The book's directory layout as templates see it: the project root, the
/// source directory, the template directory and the build directory, each
/// absolute or resolved against the root. Constructed once per run and
/// read-only afterwards.
pub struct BookObject {
    pub root_dir: String,
    pub src_dir: String,
    pub template_dir: String,
    pub build_dir: String,
}

impl BookObject {
    /// The layout computed from the project root and the configured source,
    /// build and template directories, each taken as it is when absolute
    /// and joined to the root otherwise.
    pub fn new(root: &str, src_dir: &str, build_dir: &str, templates_dir: &str) -> (r: BookObject)
        ensures
            r.root_dir@ == root@,
            r.src_dir@ == spec_resolve_to_root(src_dir@, root@),
            r.build_dir@ == spec_resolve_to_root(build_dir@, root@),
            r.template_dir@ == spec_resolve_to_root(templates_dir@, root@),
    {
        BookObject {
            root_dir: root.to_owned(),
            src_dir: resolve_to_root(src_dir, root),
            template_dir: resolve_to_root(templates_dir, root),
            build_dir: resolve_to_root(build_dir, root),
        }
    }

    /// The attribute named `key`, or absent for an unknown key.
    pub fn get_value(&self, key: &str) -> (r: Option<String>)
        ensures
            opt_view(r) == self.spec_get(key@),
    {
        if str_eq(key, "root_dir") {
            Some(self.root_dir.clone())
        } else if str_eq(key, "src_dir") {
            Some(self.src_dir.clone())
        } else if str_eq(key, "template_dir") {
            Some(self.template_dir.clone())
        } else if str_eq(key, "build_dir") {
            Some(self.build_dir.clone())
        } else {
            None
        }
    }

    /// What `get_value` returns for each key.
    pub open spec fn spec_get(&self, key: Seq<char>) -> Option<Seq<char>> {
        if key == "root_dir"@ {
            Some(self.root_dir@)
        } else if key == "src_dir"@ {
            Some(self.src_dir@)
        } else if key == "template_dir"@ {
            Some(self.template_dir@)
        } else if key == "build_dir"@ {
            Some(self.build_dir@)
        } else {
            None
        }
    }

    /// The declared attribute names.
    pub fn enumerate(&self) -> (r: Vec<String>)
        ensures
            r@.len() == 4,
            r@[0]@ == "root_dir"@,
            r@[1]@ == "src_dir"@,
            r@[2]@ == "template_dir"@,
            r@[3]@ == "build_dir"@,
    {
        let mut keys: Vec<String> = Vec::new();
        keys.push(String::from_str("root_dir"));
        keys.push(String::from_str("src_dir"));
        keys.push(String::from_str("template_dir"));
        keys.push(String::from_str("build_dir"));
        keys
    }

    /// The four attributes as `(key, value)` pairs, in declaration order.
    pub fn pairs(&self) -> (r: Vec<(String, String)>)
        ensures
            pairs_view(r@) == self.spec_pairs(),
    {
        let mut out: Vec<(String, String)> = Vec::new();
        out.push((String::from_str("root_dir"), self.root_dir.clone()));
        out.push((String::from_str("src_dir"), self.src_dir.clone()));
        out.push((String::from_str("template_dir"), self.template_dir.clone()));
        out.push((String::from_str("build_dir"), self.build_dir.clone()));
        assert(pairs_view(out@) =~= self.spec_pairs());
        out
    }

    /// The pair sequence that `pairs` returns, as character sequences.
    pub open spec fn spec_pairs(&self) -> Seq<(Seq<char>, Seq<char>)> {
        seq![
            ("root_dir"@, self.root_dir@),
            ("src_dir"@, self.src_dir@),
            ("template_dir"@, self.template_dir@),
            ("build_dir"@, self.build_dir@),
        ]
    }
}

} // verus!
