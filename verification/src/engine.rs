//! Trusted boundary to the minijinja templating engine.
//!
//! The engine is consumed as an opaque "render(template, context) -> string
//! or error" capability, exactly as the preprocessor's design treats it: the
//! library decides what is rendered, with which policy, against which
//! globals, and what happens to each outcome; the engine's own grammar and
//! evaluation are outside the proof. A render may read template files from
//! disk through the loader and may call host-registered functions, so
//! nothing is assumed about the text an `Ok` carries.

use crate::config::UndefinedBehavior;
use crate::extra_globals::pairs_view;
use vstd::prelude::*;

verus! {

#[verifier::external_type_specification]
#[verifier::external_body]
pub struct ExEnvironment<'a>(minijinja::Environment<'a>);

#[verifier::external_type_specification]
#[verifier::external_body]
pub struct ExValue(minijinja::Value);

#[verifier::external_type_specification]
#[verifier::external_body]
pub struct ExError(minijinja::Error);

/// The engine's configured undefined-variable policy. This observer and
/// the two below model what the host has configured of an engine; they
/// are given meaning only by the wrapper contracts in this module, which
/// set them on construction and carry them through each configuration
/// call.
pub uninterp spec fn env_policy(env: minijinja::Environment<'static>) -> UndefinedBehavior;

/// The directory the engine's template loader reads from, or `None`
/// before a loader is set.
pub uninterp spec fn env_template_dir(env: minijinja::Environment<'static>) -> Option<Seq<char>>;

/// The string-keyed map globals the host has added to the engine, each a
/// list of `(key, value)` string pairs. The engine's own built-in globals
/// (filters, tests, functions) are not part of this map.
pub uninterp spec fn env_globals(env: minijinja::Environment<'static>) -> Map<
    Seq<char>,
    Seq<(Seq<char>, Seq<char>)>,
>;

/// The globals map of an engine with no host-added globals.
pub open spec fn no_host_globals() -> Map<Seq<char>, Seq<(Seq<char>, Seq<char>)>> {
    Map::empty()
}

/// Relies on minijinja::Environment::new: a fresh, independent engine
/// instance with the engine's built-in filters, tests and globals, no
/// templates and no host-added globals, and the engine's default
/// undefined-variable policy, which is `Lenient`.
#[verifier::external_body]
pub(crate) fn env_new() -> (env: minijinja::Environment<'static>)
    ensures
        env_policy(env) == UndefinedBehavior::Lenient,
        env_template_dir(env) == None::<Seq<char>>,
        env_globals(env) == no_host_globals(),
{
    minijinja::Environment::new()
}

/// Relies on minijinja::Environment::set_undefined_behavior: sets the
/// engine's policy for references to undefined variables; the library's
/// `Lenient`, `Chainable` and `Strict` map to the engine's like-named modes.
#[verifier::external_body]
pub(crate) fn env_set_undefined_behavior(
    env: &mut minijinja::Environment<'static>,
    policy: UndefinedBehavior,
)
    ensures
        env_policy(*final(env)) == policy,
        env_template_dir(*final(env)) == env_template_dir(*old(env)),
        env_globals(*final(env)) == env_globals(*old(env)),
{
    env.set_undefined_behavior(
        match policy {
            UndefinedBehavior::Lenient => minijinja::UndefinedBehavior::Lenient,
            UndefinedBehavior::Chainable => minijinja::UndefinedBehavior::Chainable,
            UndefinedBehavior::Strict => minijinja::UndefinedBehavior::Strict,
        },
    );
}

/// Relies on minijinja::Environment::set_loader with minijinja::path_loader:
/// templates referenced by name are from now on loaded from files under
/// `dir`; the engine's policy and the host-added globals are untouched.
#[verifier::external_body]
pub(crate) fn env_set_template_dir(env: &mut minijinja::Environment<'static>, dir: &String)
    ensures
        env_template_dir(*final(env)) == Some(dir@),
        env_policy(*final(env)) == env_policy(*old(env)),
        env_globals(*final(env)) == env_globals(*old(env)),
{
    env.set_loader(minijinja::path_loader(dir.clone()));
}

/// Relies on minijinja::Environment::add_global: makes a string-keyed map
/// holding exactly `entries` visible to every later render under `name`,
/// replacing any earlier global of that name; the engine's policy and
/// loader are untouched.
#[verifier::external_body]
pub(crate) fn env_add_global_map(
    env: &mut minijinja::Environment<'static>,
    name: &str,
    entries: &Vec<(String, String)>,
)
    ensures
        env_globals(*final(env)) == env_globals(*old(env)).insert(name@, pairs_view(entries@)),
        env_policy(*final(env)) == env_policy(*old(env)),
        env_template_dir(*final(env)) == env_template_dir(*old(env)),
{
    let value: minijinja::Value = entries.iter().map(|(k, v)| (k.clone(), v.clone())).collect();
    env.add_global(name.to_owned(), value);
}

/// Relies on minijinja::Environment::remove_global: removes the global of
/// that name, if any, so that later renders see it as undefined; the
/// engine's policy and loader are untouched.
#[verifier::external_body]
pub(crate) fn env_remove_global(env: &mut minijinja::Environment<'static>, name: &str)
    ensures
        env_globals(*final(env)) == env_globals(*old(env)).remove(name@),
        env_policy(*final(env)) == env_policy(*old(env)),
        env_template_dir(*final(env)) == env_template_dir(*old(env)),
{
    env.remove_global(name);
}

/// Relies on minijinja::Environment::render_str: parses `source` as a
/// template and renders it against `ctx` and the engine's globals. The
/// outcome depends on the engine's loader and on host-registered functions,
/// so nothing is promised of it; callers handle every `Ok` and `Err` alike.
#[verifier::external_body]
pub(crate) fn env_render_str(
    env: &minijinja::Environment<'static>,
    source: &str,
    ctx: &minijinja::Value,
) -> Result<String, minijinja::Error> {
    env.render_str(source, ctx)
}

} // verus!
