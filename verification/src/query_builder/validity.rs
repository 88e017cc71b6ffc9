//! What makes a statement tree well formed, and the check of it at run time.

use vstd::prelude::*;
use crate::query_builder::conditions::all_well_formed;
use crate::query_builder::model::{
    assignment_views, condition_views, QueryComponent, QueryComponentView, WhereCondition,
};

verus! {

/// No column is assigned twice.
pub open spec fn distinct_columns(params: Seq<(Seq<char>, Seq<char>)>) -> bool {
    forall|i: int, j: int|
        0 <= i < j < params.len() ==> (#[trigger] params[i]).0 != (#[trigger] params[j]).0
}

impl QueryComponentView {
    /// A tree is well formed when, on every level of it, no column is
    /// assigned twice and every condition has a literal value.
    pub open spec fn well_formed(self) -> bool
        decreases self,
    {
        &&& match self.params {
            Some(params) => distinct_columns(params),
            None => true,
        }
        &&& match self.where_conditions {
            Some(chain) => all_well_formed(chain),
            None => true,
        }
        &&& match self.operated_in {
            Some(inner) => inner.well_formed(),
            None => true,
        }
    }
}

impl WhereCondition {
    /// Whether the condition has a literal value.
    pub fn is_well_formed(&self) -> (ok: bool)
        ensures
            ok == self@.well_formed(),
    {
        self.value.len() > 0
    }
}

/// Whether no column is assigned twice in `params`.
fn has_distinct_columns(params: &Vec<(String, String)>) -> (ok: bool)
    ensures
        ok == distinct_columns(assignment_views(params@)),
{
    let ghost views = assignment_views(params@);
    let mut j: usize = 0;
    while j < params.len()
        invariant
            j <= params.len(),
            views == assignment_views(params@),
            distinct_columns(views.take(j as int)),
        decreases params.len() - j,
    {
        let mut i: usize = 0;
        while i < j
            invariant
                i <= j < params.len(),
                views == assignment_views(params@),
                forall|k: int| 0 <= k < i ==> (#[trigger] views[k]).0 != views[j as int].0,
            decreases j - i,
        {
            if params[i].0 == params[j].0 {
                assert(views[i as int].0 == views[j as int].0);
                return false;
            }
            i += 1;
        }
        proof {
            let longer = views.take(j + 1);
            assert forall|a: int, b: int| 0 <= a < b < longer.len() implies (
            #[trigger] longer[a]).0 != (#[trigger] longer[b]).0 by {
                if b < j {
                    assert(views.take(j as int)[a] == longer[a]);
                    assert(views.take(j as int)[b] == longer[b]);
                } else {
                    assert(longer[a] == views[a]);
                }
            }
        }
        j += 1;
    }
    proof {
        assert(views.take(j as int) =~= views);
    }
    true
}

/// Whether every condition of `chain` has a literal value.
fn has_values(chain: &Vec<WhereCondition>) -> (ok: bool)
    ensures
        ok == all_well_formed(condition_views(chain@)),
{
    let ghost views = condition_views(chain@);
    let mut i: usize = 0;
    while i < chain.len()
        invariant
            i <= chain.len(),
            views == condition_views(chain@),
            all_well_formed(views.take(i as int)),
        decreases chain.len() - i,
    {
        if !chain[i].is_well_formed() {
            assert(!views[i as int].well_formed());
            return false;
        }
        proof {
            let longer = views.take(i + 1);
            assert forall|k: int| 0 <= k < longer.len() implies (#[trigger] longer[k]).well_formed() by {
                if k < i {
                    assert(views.take(i as int)[k] == longer[k]);
                }
            }
        }
        i += 1;
    }
    proof {
        assert(views.take(i as int) =~= views);
    }
    true
}

impl QueryComponent {
    /// Whether the tree is well formed on every level.
    pub fn is_well_formed(&self) -> (ok: bool)
        ensures
            ok == self@.well_formed(),
        decreases self,
    {
        let columns_ok = match &self.params {
            Some(params) => has_distinct_columns(params),
            None => true,
        };
        let values_ok = match &self.where_conditions {
            Some(chain) => has_values(chain),
            None => true,
        };
        let nested_ok = match &self.operated_in {
            Some(inner) => inner.is_well_formed(),
            None => true,
        };
        columns_ok && values_ok && nested_ok
    }
}

} // verus!
