//! Preprocessor configuration and engine construction.

use crate::engine::env_add_global_map;
use crate::engine::env_globals;
use crate::engine::env_new;
use crate::engine::env_policy;
use crate::engine::env_set_template_dir;
use crate::engine::env_set_undefined_behavior;
use crate::engine::env_template_dir;
use crate::engine::no_host_globals;
use crate::extra_globals::pairs_view;
use crate::extra_globals::EnvironmentObject;
use crate::paths::resolve_to_root;
use crate::paths::spec_resolve_to_root;
use crate::strings::str_eq;
use vstd::prelude::*;
use vstd::string::StringExecFns;

verus! {

/// The engine's policy for a template that references an undefined
/// variable: `Strict` makes the reference an evaluation error, `Lenient`
/// renders it as an inert, empty, falsy placeholder, and `Chainable` is like
/// `Lenient` but lets attribute and index access chain off an undefined
/// value without erroring.
#[derive(Debug, Clone, Copy, PartialEq, Eq, Structural)]
pub enum UndefinedBehavior {
    Lenient,
    Chainable,
    Strict,
}

impl Default for UndefinedBehavior {
    fn default() -> (r: Self)
        ensures
            r == UndefinedBehavior::Strict,
    {
        UndefinedBehavior::Strict
    }
}

impl UndefinedBehavior {
    /// The policy named by its configuration keyword, or `None` for any
    /// other string.
    pub fn from_name(s: &str) -> (r: Option<UndefinedBehavior>)
        ensures
            s@ == "lenient"@ ==> r == Some(UndefinedBehavior::Lenient),
            s@ == "chainable"@ ==> r == Some(UndefinedBehavior::Chainable),
            s@ == "strict"@ ==> r == Some(UndefinedBehavior::Strict),
            s@ != "lenient"@ && s@ != "chainable"@ && s@ != "strict"@ ==> r.is_none(),
    {
        proof {
            reveal_strlit("lenient");
            reveal_strlit("chainable");
            reveal_strlit("strict");
            assert("lenient"@.len() == 7);
            assert("chainable"@.len() == 9);
            assert("strict"@.len() == 6);
        }
        if str_eq(s, "lenient") {
            Some(UndefinedBehavior::Lenient)
        } else if str_eq(s, "chainable") {
            Some(UndefinedBehavior::Chainable)
        } else if str_eq(s, "strict") {
            Some(UndefinedBehavior::Strict)
        } else {
            None
        }
    }
}

/// The preprocessor's configuration section: the variables visible to every
/// render, the undefined-variable policy, the template search directory
/// (relative to the project root unless absolute), whether the summary file
/// is re-templated, a prelude prepended to content renders, and whether the
/// process environment is exposed as a template global.
pub struct MiniJinjaConfig {
    pub preprocess_summary: bool,
    pub variables: minijinja::Value,
    pub undefined_behavior: UndefinedBehavior,
    pub templates_dir: String,
    pub prelude_string: String,
    pub global_env: bool,
}

impl MiniJinjaConfig {
    /// Builds a fresh engine instance from this configuration: the
    /// undefined-variable policy is the configured one, templates are
    /// loaded from `templates_dir` resolved against the project root, and
    /// the environment snapshot is exposed to templates as the global
    /// `env` exactly when `global_env` is set — and nothing else is bound
    /// yet.
    pub fn create_env(&self, root: &str, env_vars: &EnvironmentObject) -> (env: minijinja::Environment<
        'static,
    >)
        ensures
            env_policy(env) == self.undefined_behavior,
            env_template_dir(env) == Some(spec_resolve_to_root(self.templates_dir@, root@)),
            env_globals(env) == (if self.global_env {
                no_host_globals().insert("env"@, pairs_view(env_vars.vars@))
            } else {
                no_host_globals()
            }),
    {
        let mut env = env_new();
        env_set_undefined_behavior(&mut env, self.undefined_behavior);
        let templates_dir = resolve_to_root(self.templates_dir.as_str(), root);
        env_set_template_dir(&mut env, &templates_dir);
        if self.global_env {
            env_add_global_map(&mut env, "env", &env_vars.vars);
        }
        env
    }

    /// The default template search directory.
    pub fn default_templates_dir() -> (r: String)
        ensures
            r@ == "templates"@,
    {
        String::from_str("templates")
    }
}

} // verus!
