//! A string-keyed, enumerable view over an environment-variable snapshot,
//! kept alongside `extra_globals::EnvironmentObject` as the free-standing
//! variant of the same capability.

use crate::extra_globals::lookup_pairs;
use crate::extra_globals::spec_lookup;
use crate::extra_globals::unique_keys;
use vstd::prelude::*;

verus! {

/// A frozen snapshot of the process's environment variables, taken by the
/// host once and passed in; later changes to the real process environment
/// are not observed. The keys are pairwise distinct: the snapshot is a
/// mapping.
pub struct DynamicEnvironment {
    pub vars: Vec<(String, String)>,
}

impl DynamicEnvironment {
    /// An environment view over the given snapshot pairs, whose keys must
    /// be distinct.
    pub fn new(vars: Vec<(String, String)>) -> (r: DynamicEnvironment)
        requires
            unique_keys(vars@),
        ensures
            r.vars == vars,
    {
        DynamicEnvironment { vars }
    }

    /// The value of the first entry whose key is `key`, or absent.
    pub fn get_value(&self, key: &str) -> (r: Option<String>)
        ensures
            match r {
                Some(v) => spec_lookup(self.vars@, key@) == Some(v@),
                None => spec_lookup(self.vars@, key@) == None::<Seq<char>>,
            },
    {
        lookup_pairs(&self.vars, key)
    }

    /// The snapshot's keys, in snapshot order; under the snapshot's
    /// distinct-keys invariant each key appears once.
    pub fn enumerate(&self) -> (r: Vec<String>)
        ensures
            r@.len() == self.vars@.len(),
            forall|m: int| 0 <= m < r@.len() ==> r@[m]@ == self.vars@[m].0@,
            unique_keys(self.vars@) ==> (forall|i: int, j: int|
                0 <= i < j < r@.len() ==> r@[i]@ != r@[j]@),
    {
        let n: usize = self.vars.len();
        let mut keys: Vec<String> = Vec::new();
        let mut i: usize = 0;
        while i < n
            invariant
                i <= n,
                n == self.vars@.len(),
                keys@.len() == i,
                forall|m: int| 0 <= m < i ==> keys@[m]@ == self.vars@[m].0@,
            decreases n - i,
        {
            keys.push(self.vars[i].0.clone());
            i = i + 1;
        }
        keys
    }
}

} // verus!
