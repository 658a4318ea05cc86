//! The order of the grades: a grade is below another exactly when its
//! rank is lower (Nine lowest, S9 highest).

use vstd::prelude::*;
use std::cmp::Ordering;
use vstd::std_specs::cmp::PartialOrdSpec;
use crate::data::{grade_rank, Grade};

verus! {

impl PartialOrd for Grade {
    fn partial_cmp(&self, other: &Grade) -> (r: Option<Ordering>) {
        let a = self.index();
        let b = other.index();
        if a < b {
            Some(Ordering::Less)
        } else if a == b {
            Some(Ordering::Equal)
        } else {
            Some(Ordering::Greater)
        }
    }
}

impl vstd::std_specs::cmp::PartialOrdSpecImpl for Grade {
    open spec fn obeys_partial_cmp_spec() -> bool {
        true
    }

    open spec fn partial_cmp_spec(&self, other: &Grade) -> Option<Ordering> {
        if grade_rank(*self) < grade_rank(*other) {
            Some(Ordering::Less)
        } else if grade_rank(*self) == grade_rank(*other) {
            Some(Ordering::Equal)
        } else {
            Some(Ordering::Greater)
        }
    }
}

/// Grades compare by their rank: one grade is below another exactly when
/// its rank is lower, equal exactly when they are the same grade, and above
/// exactly when its rank is higher.
pub proof fn law_grade_order_is_rank_order(a: Grade, b: Grade)
    ensures
        (a.partial_cmp_spec(&b) == Some(Ordering::Less)) <==> grade_rank(a) < grade_rank(b),
        (a.partial_cmp_spec(&b) == Some(Ordering::Equal)) <==> a == b,
        (a.partial_cmp_spec(&b) == Some(Ordering::Greater)) <==> grade_rank(a) > grade_rank(b),
{
}

} // verus!
