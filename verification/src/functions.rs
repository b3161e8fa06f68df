//! The compute side of the template-callable function library: anchor
//! parsing, anchor defaults, and path resolution against the book layout
//! and the current chapter. The filesystem steps these paths feed
//! (existence check, copy, read) are the host's; every decision about
//! *which* path is touched is made here.

use crate::extra_globals::BookObject;
use crate::extra_globals::ChapterObject;
use crate::paths::join_path;
use crate::paths::spec_join;
use crate::strings::str_eq;
use vstd::prelude::*;
use vstd::string::StringExecFns;

verus! {

/// A named anchor: the base directory against which a user-supplied
/// relative path is resolved.
#[derive(Debug, Clone, Copy, PartialEq, Eq, Structural)]
pub enum RelativeType {
    Absolute,
    Root,
    Source,
    Template,
    Build,
    Chapter,
    ChapterBuild,
}

/// Why a resolution failed: the `Chapter` and `ChapterBuild` anchors need a
/// bound chapter with a source directory.
#[derive(Debug, Clone, Copy, PartialEq, Eq, Structural)]
pub enum ResolveError {
    MissingChapterContext,
    MissingChapterSourceDir,
}

impl ResolveError {
    /// The error's text.
    pub fn message(&self) -> (r: String)
        ensures
            *self == ResolveError::MissingChapterContext ==> r@ == "missing chapter context"@,
            *self == ResolveError::MissingChapterSourceDir ==> r@
                == "'source_dir' not found in 'chapter'"@,
    {
        match self {
            ResolveError::MissingChapterContext => String::from_str("missing chapter context"),
            ResolveError::MissingChapterSourceDir => String::from_str(
                "'source_dir' not found in 'chapter'",
            ),
        }
    }
}

/// The anchor named by its lowercase keyword, or `None` for any other
/// string.
pub open spec fn spec_relative_type_from_name(s: Seq<char>) -> Option<RelativeType> {
    if s == "absolute"@ {
        Some(RelativeType::Absolute)
    } else if s == "root"@ {
        Some(RelativeType::Root)
    } else if s == "source"@ {
        Some(RelativeType::Source)
    } else if s == "template"@ {
        Some(RelativeType::Template)
    } else if s == "build"@ {
        Some(RelativeType::Build)
    } else if s == "chapter"@ {
        Some(RelativeType::Chapter)
    } else if s == "chapterbuild"@ {
        Some(RelativeType::ChapterBuild)
    } else {
        None
    }
}

pub fn relative_type_from_name(s: &str) -> (r: Option<RelativeType>)
    ensures
        r == spec_relative_type_from_name(s@),
{
    if str_eq(s, "absolute") {
        Some(RelativeType::Absolute)
    } else if str_eq(s, "root") {
        Some(RelativeType::Root)
    } else if str_eq(s, "source") {
        Some(RelativeType::Source)
    } else if str_eq(s, "template") {
        Some(RelativeType::Template)
    } else if str_eq(s, "build") {
        Some(RelativeType::Build)
    } else if str_eq(s, "chapter") {
        Some(RelativeType::Chapter)
    } else if str_eq(s, "chapterbuild") {
        Some(RelativeType::ChapterBuild)
    } else {
        None
    }
}

/// The view of an optional borrowed chapter as an optional chapter value.
pub open spec fn chapter_view(c: Option<&ChapterObject>) -> Option<ChapterObject> {
    match c {
        Some(x) => Some(*x),
        None => None,
    }
}

/// Resolution under the `Chapter` or `ChapterBuild` anchor: the base
/// directory, then the chapter's source directory, then the path.
pub open spec fn spec_resolve_in_chapter(
    base: Seq<char>,
    chapter: Option<ChapterObject>,
    path: Seq<char>,
) -> Result<Seq<char>, ResolveError> {
    match chapter {
        None => Err(ResolveError::MissingChapterContext),
        Some(c) => match c.source_dir {
            None => Err(ResolveError::MissingChapterSourceDir),
            Some(d) => Ok(spec_join(spec_join(base, d@), path)),
        },
    }
}

/// What `resolve_path` returns: the anchor's base directory joined with the
/// path, the path itself for `Absolute`, or the error the chapter anchors
/// give without a usable chapter.
pub open spec fn spec_resolve(
    book: BookObject,
    chapter: Option<ChapterObject>,
    path: Seq<char>,
    rel: RelativeType,
) -> Result<Seq<char>, ResolveError> {
    match rel {
        RelativeType::Absolute => Ok(path),
        RelativeType::Root => Ok(spec_join(book.root_dir@, path)),
        RelativeType::Source => Ok(spec_join(book.src_dir@, path)),
        RelativeType::Template => Ok(spec_join(book.template_dir@, path)),
        RelativeType::Build => Ok(spec_join(book.build_dir@, path)),
        RelativeType::Chapter => spec_resolve_in_chapter(book.src_dir@, chapter, path),
        RelativeType::ChapterBuild => spec_resolve_in_chapter(book.build_dir@, chapter, path),
    }
}

/// Whether some name in `names` is `key`.
pub open spec fn contains_name(names: Seq<String>, key: Seq<char>) -> bool {
    exists|i: int| 0 <= i < names.len() && names[i]@ == key
}

/// The first supplied named argument that no recognized name matches, or
/// `None` when every supplied name is recognized.
pub open spec fn spec_first_unknown(supplied: Seq<String>, recognized: Seq<String>) -> Option<
    Seq<char>,
>
    decreases supplied.len(),
{
    if supplied.len() == 0 {
        None
    } else if !contains_name(recognized, supplied[0]@) {
        Some(supplied[0]@)
    } else {
        spec_first_unknown(supplied.drop_first(), recognized)
    }
}

fn name_is_recognized(recognized: &Vec<String>, key: &str) -> (r: bool)
    ensures
        r == contains_name(recognized@, key@),
{
    let n: usize = recognized.len();
    let mut i: usize = 0;
    while i < n
        invariant
            i <= n,
            n == recognized@.len(),
            forall|m: int| 0 <= m < i ==> recognized@[m]@ != key@,
        decreases n - i,
    {
        if str_eq(recognized[i].as_str(), key) {
            proof {
                assert(recognized@[i as int]@ == key@);
            }
            return true;
        }
        i = i + 1;
    }
    false
}

/// The usage check of every template-callable function: a named argument
/// the function does not recognize is an error, not silently ignored.
/// Returns the first unrecognized name among the supplied ones, if any.
pub fn first_unknown_name(supplied: &Vec<String>, recognized: &Vec<String>) -> (r: Option<String>)
    ensures
        match r {
            Some(s) => spec_first_unknown(supplied@, recognized@) == Some(s@),
            None => spec_first_unknown(supplied@, recognized@) == None::<Seq<char>>,
        },
{
    proof {
        assert(supplied@.skip(0) =~= supplied@);
    }
    let n: usize = supplied.len();
    let mut i: usize = 0;
    while i < n
        invariant
            i <= n,
            n == supplied@.len(),
            spec_first_unknown(supplied@, recognized@) == spec_first_unknown(
                supplied@.skip(i as int),
                recognized@,
            ),
        decreases n - i,
    {
        proof {
            assert(supplied@.skip(i as int)[0] == supplied@[i as int]);
        }
        if !name_is_recognized(recognized, supplied[i].as_str()) {
            return Some(supplied[i].clone());
        }
        proof {
            assert(supplied@.skip(i as int).drop_first() =~= supplied@.skip(i + 1));
        }
        i = i + 1;
    }
    proof {
        assert(supplied@.skip(n as int) =~= Seq::<String>::empty());
    }
    None
}

/// With no chapter bound, resolution under a chapter anchor always fails
/// with the missing-chapter-context error, whatever the book layout and the
/// path.
pub proof fn lemma_chapter_anchor_needs_chapter(book: BookObject, path: Seq<char>)
    ensures
        spec_resolve(book, None, path, RelativeType::Chapter) == Err::<Seq<char>, ResolveError>(
            ResolveError::MissingChapterContext,
        ),
        spec_resolve(book, None, path, RelativeType::ChapterBuild) == Err::<
            Seq<char>,
            ResolveError,
        >(ResolveError::MissingChapterContext),
{
}

fn resolve_in_chapter(base: &str, chapter: Option<&ChapterObject>, path: &str) -> (r: Result<
    String,
    ResolveError,
>)
    ensures
        match r {
            Ok(p) => spec_resolve_in_chapter(base@, chapter_view(chapter), path@) == Ok::<
                Seq<char>,
                ResolveError,
            >(p@),
            Err(e) => spec_resolve_in_chapter(base@, chapter_view(chapter), path@) == Err::<
                Seq<char>,
                ResolveError,
            >(e),
        },
{
    match chapter {
        None => Err(ResolveError::MissingChapterContext),
        Some(c) => match &c.source_dir {
            None => Err(ResolveError::MissingChapterSourceDir),
            Some(d) => {
                let base_dir = join_path(base, d.as_str());
                Ok(join_path(base_dir.as_str(), path))
            },
        },
    }
}

/// Resolves `path` against the anchor `rel`, using the book layout and,
/// for the chapter anchors, the currently bound chapter.
pub fn resolve_path(
    book: &BookObject,
    chapter: Option<&ChapterObject>,
    path: &str,
    rel: RelativeType,
) -> (r: Result<String, ResolveError>)
    ensures
        match r {
            Ok(p) => spec_resolve(*book, chapter_view(chapter), path@, rel) == Ok::<
                Seq<char>,
                ResolveError,
            >(p@),
            Err(e) => spec_resolve(*book, chapter_view(chapter), path@, rel) == Err::<
                Seq<char>,
                ResolveError,
            >(e),
        },
{
    match rel {
        RelativeType::Absolute => Ok(path.to_owned()),
        RelativeType::Root => Ok(join_path(book.root_dir.as_str(), path)),
        RelativeType::Source => Ok(join_path(book.src_dir.as_str(), path)),
        RelativeType::Template => Ok(join_path(book.template_dir.as_str(), path)),
        RelativeType::Build => Ok(join_path(book.build_dir.as_str(), path)),
        RelativeType::Chapter => resolve_in_chapter(book.src_dir.as_str(), chapter, path),
        RelativeType::ChapterBuild => resolve_in_chapter(book.build_dir.as_str(), chapter, path),
    }
}

/// Why a template-callable function rejected its arguments before touching
/// the filesystem: a named anchor argument that names no anchor (a usage
/// error), or a failed resolution.
#[derive(Debug, Clone, Copy, PartialEq, Eq, Structural)]
pub enum FunctionError {
    UnknownAnchor,
    Resolve(ResolveError),
}

impl FunctionError {
    /// The error's text.
    pub fn message(&self) -> (r: String)
        ensures
            *self == FunctionError::UnknownAnchor ==> r@ == "unknown relative type"@,
            *self == FunctionError::Resolve(ResolveError::MissingChapterContext) ==> r@
                == "missing chapter context"@,
            *self == FunctionError::Resolve(ResolveError::MissingChapterSourceDir) ==> r@
                == "'source_dir' not found in 'chapter'"@,
    {
        match self {
            FunctionError::UnknownAnchor => String::from_str("unknown relative type"),
            FunctionError::Resolve(e) => e.message(),
        }
    }
}

/// The view of an optional string slice as an optional character sequence.
pub open spec fn opt_arg_view(o: Option<&str>) -> Option<Seq<char>> {
    match o {
        Some(s) => Some(s@),
        None => None,
    }
}

/// The anchor a caller asked for: the default when the named argument is
/// absent, the named anchor when it names one, a usage error otherwise.
pub open spec fn spec_anchor_or_default(name: Option<Seq<char>>, default: RelativeType) -> Result<
    RelativeType,
    FunctionError,
> {
    match name {
        None => Ok(default),
        Some(s) => match spec_relative_type_from_name(s) {
            Some(t) => Ok(t),
            None => Err(FunctionError::UnknownAnchor),
        },
    }
}

pub fn anchor_or_default(name: Option<&str>, default: RelativeType) -> (r: Result<
    RelativeType,
    FunctionError,
>)
    ensures
        r == spec_anchor_or_default(opt_arg_view(name), default),
{
    match name {
        None => Ok(default),
        Some(s) => match relative_type_from_name(s) {
            Some(t) => Ok(t),
            None => Err(FunctionError::UnknownAnchor),
        },
    }
}

/// The path one of the single-path template functions acts on: the anchor
/// argument (defaulting to `default`) parsed, then the filename resolved
/// under it.
pub open spec fn spec_function_path(
    book: BookObject,
    chapter: Option<ChapterObject>,
    filename: Seq<char>,
    rel: Option<Seq<char>>,
    default: RelativeType,
) -> Result<Seq<char>, FunctionError> {
    match spec_anchor_or_default(rel, default) {
        Err(e) => Err(e),
        Ok(t) => match spec_resolve(book, chapter, filename, t) {
            Ok(p) => Ok(p),
            Err(e) => Err(FunctionError::Resolve(e)),
        },
    }
}

fn function_path(
    book: &BookObject,
    chapter: Option<&ChapterObject>,
    filename: &str,
    rel: Option<&str>,
    default: RelativeType,
) -> (r: Result<String, FunctionError>)
    ensures
        match r {
            Ok(p) => spec_function_path(
                *book,
                chapter_view(chapter),
                filename@,
                opt_arg_view(rel),
                default,
            ) == Ok::<Seq<char>, FunctionError>(p@),
            Err(e) => spec_function_path(
                *book,
                chapter_view(chapter),
                filename@,
                opt_arg_view(rel),
                default,
            ) == Err::<Seq<char>, FunctionError>(e),
        },
{
    match anchor_or_default(rel, default) {
        Err(e) => Err(e),
        Ok(t) => match resolve_path(book, chapter, filename, t) {
            Ok(p) => Ok(p),
            Err(e) => Err(FunctionError::Resolve(e)),
        },
    }
}

/// The path the `file_exists` template function checks: its anchor
/// argument defaults to the template directory.
pub fn file_exists_path(
    book: &BookObject,
    chapter: Option<&ChapterObject>,
    filename: &str,
    rel: Option<&str>,
) -> (r: Result<String, FunctionError>)
    ensures
        match r {
            Ok(p) => spec_function_path(
                *book,
                chapter_view(chapter),
                filename@,
                opt_arg_view(rel),
                RelativeType::Template,
            ) == Ok::<Seq<char>, FunctionError>(p@),
            Err(e) => spec_function_path(
                *book,
                chapter_view(chapter),
                filename@,
                opt_arg_view(rel),
                RelativeType::Template,
            ) == Err::<Seq<char>, FunctionError>(e),
        },
{
    function_path(book, chapter, filename, rel, RelativeType::Template)
}

/// The path the `load_file` template function reads: its anchor argument
/// defaults to the template directory.
pub fn load_file_path(
    book: &BookObject,
    chapter: Option<&ChapterObject>,
    filename: &str,
    rel: Option<&str>,
) -> (r: Result<String, FunctionError>)
    ensures
        match r {
            Ok(p) => spec_function_path(
                *book,
                chapter_view(chapter),
                filename@,
                opt_arg_view(rel),
                RelativeType::Template,
            ) == Ok::<Seq<char>, FunctionError>(p@),
            Err(e) => spec_function_path(
                *book,
                chapter_view(chapter),
                filename@,
                opt_arg_view(rel),
                RelativeType::Template,
            ) == Err::<Seq<char>, FunctionError>(e),
        },
{
    function_path(book, chapter, filename, rel, RelativeType::Template)
}

/// What the `copy_file` template function copies: the source under its
/// anchor (default the template directory) and the destination (default
/// the source filename) under its anchor (default the chapter's build
/// directory). Anchor arguments are checked in source-then-destination
/// order before any resolution.
pub open spec fn spec_copy_file_paths(
    book: BookObject,
    chapter: Option<ChapterObject>,
    src: Seq<char>,
    dst: Option<Seq<char>>,
    srcrel: Option<Seq<char>>,
    dstrel: Option<Seq<char>>,
) -> Result<(Seq<char>, Seq<char>), FunctionError> {
    match spec_anchor_or_default(srcrel, RelativeType::Template) {
        Err(e) => Err(e),
        Ok(st) => match spec_anchor_or_default(dstrel, RelativeType::ChapterBuild) {
            Err(e) => Err(e),
            Ok(dt) => {
                let dname = match dst {
                    None => src,
                    Some(d) => d,
                };
                match spec_resolve(book, chapter, src, st) {
                    Err(e) => Err(FunctionError::Resolve(e)),
                    Ok(sp) => match spec_resolve(book, chapter, dname, dt) {
                        Err(e) => Err(FunctionError::Resolve(e)),
                        Ok(dp) => Ok((sp, dp)),
                    },
                }
            },
        },
    }
}

pub fn copy_file_paths(
    book: &BookObject,
    chapter: Option<&ChapterObject>,
    src: &str,
    dst: Option<&str>,
    srcrel: Option<&str>,
    dstrel: Option<&str>,
) -> (r: Result<(String, String), FunctionError>)
    ensures
        match r {
            Ok(p) => spec_copy_file_paths(
                *book,
                chapter_view(chapter),
                src@,
                opt_arg_view(dst),
                opt_arg_view(srcrel),
                opt_arg_view(dstrel),
            ) == Ok::<(Seq<char>, Seq<char>), FunctionError>((p.0@, p.1@)),
            Err(e) => spec_copy_file_paths(
                *book,
                chapter_view(chapter),
                src@,
                opt_arg_view(dst),
                opt_arg_view(srcrel),
                opt_arg_view(dstrel),
            ) == Err::<(Seq<char>, Seq<char>), FunctionError>(e),
        },
{
    match anchor_or_default(srcrel, RelativeType::Template) {
        Err(e) => Err(e),
        Ok(st) => match anchor_or_default(dstrel, RelativeType::ChapterBuild) {
            Err(e) => Err(e),
            Ok(dt) => {
                let dname = match dst {
                    None => src,
                    Some(d) => d,
                };
                match resolve_path(book, chapter, src, st) {
                    Err(e) => Err(FunctionError::Resolve(e)),
                    Ok(sp) => match resolve_path(book, chapter, dname, dt) {
                        Err(e) => Err(FunctionError::Resolve(e)),
                        Ok(dp) => Ok((sp, dp)),
                    },
                }
            },
        },
    }
}

} // verus!
