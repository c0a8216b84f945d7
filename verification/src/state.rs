//! The naming state of a resolution: a counter-backed registrar handing out
//! generated column names that are unique across the whole plan tree under
//! construction. The surrounding engine owns one registrar per tree and
//! passes it to every nested resolution, so names issued for sibling
//! sub-plans never collide; this module treats it as a sequential counter.

use crate::plan::{ColName, ColNameV};
use vstd::prelude::*;

verus! {

/// Per-resolution naming state. Every name it has ever issued carries an id
/// below `next_field_id`, so a freshly issued name equals none of them.
pub struct PlanResolverState {
    pub next_field_id: u64,
}

impl PlanResolverState {
    /// A fresh registrar; the first issued id is 0.
    pub fn new() -> (r: Self)
        ensures
            r.next_field_id == 0,
    {
        PlanResolverState { next_field_id: 0 }
    }

    /// Issues a generated column name under `hint`, distinct from every
    /// name this registrar issued before or will issue later.
    pub fn register_field_name(&mut self, hint: &str) -> (r: ColName)
        requires
            old(self).next_field_id < u64::MAX,
        ensures
            final(self).next_field_id == old(self).next_field_id + 1,
            r@ == (ColNameV::Generated { id: old(self).next_field_id, hint: hint@ }),
    {
        let id = self.next_field_id;
        self.next_field_id = self.next_field_id + 1;
        ColName::Generated { id, hint: hint.to_owned() }
    }
}

} // verus!
