//! Batch helpers over vectors of quantities: element-wise addition,
//! subtraction and comparison, index-wise paired, with the comparison
//! stopping at the first mismatch.

use vstd::prelude::*;
use crate::scalar::{spec_add, spec_eq, spec_sub};
use crate::units::{AddUnit, Qty, SubUnit, Unit};

verus! {

/// Element-wise sum of two equal-length vectors of quantities, under a
/// declared addition relation between their units.
pub fn add_unit_arrays<U: Unit, R: Unit>(base: &Vec<Qty<U>>, rhs: &Vec<Qty<R>>) -> (r: Vec<
    Qty<<U as AddUnit<R>>::Sum>,
>) where U: AddUnit<R>
    requires
        base@.len() == rhs@.len(),
    ensures
        r@.len() == base@.len(),
        forall|i: int| 0 <= i < base@.len() ==> r@[i]@ == spec_add(base@[i]@, rhs@[i]@),
{
    let mut out: Vec<Qty<<U as AddUnit<R>>::Sum>> = Vec::new();
    let mut idx: usize = 0;
    while idx < base.len()
        invariant
            base@.len() == rhs@.len(),
            idx <= base@.len(),
            out@.len() == idx as int,
            forall|i: int| 0 <= i < idx as int ==> out@[i]@ == spec_add(base@[i]@, rhs@[i]@),
        decreases base@.len() - idx,
    {
        let s = base[idx].add(rhs[idx]);
        out.push(s);
        idx = idx + 1;
    }
    out
}

/// Element-wise difference of two equal-length vectors of quantities,
/// under a declared subtraction relation between their units.
pub fn sub_unit_arrays<U: Unit, R: Unit>(base: &Vec<Qty<U>>, rhs: &Vec<Qty<R>>) -> (r: Vec<
    Qty<<U as SubUnit<R>>::Diff>,
>) where U: SubUnit<R>
    requires
        base@.len() == rhs@.len(),
    ensures
        r@.len() == base@.len(),
        forall|i: int| 0 <= i < base@.len() ==> r@[i]@ == spec_sub(base@[i]@, rhs@[i]@),
{
    let mut out: Vec<Qty<<U as SubUnit<R>>::Diff>> = Vec::new();
    let mut idx: usize = 0;
    while idx < base.len()
        invariant
            base@.len() == rhs@.len(),
            idx <= base@.len(),
            out@.len() == idx as int,
            forall|i: int| 0 <= i < idx as int ==> out@[i]@ == spec_sub(base@[i]@, rhs@[i]@),
        decreases base@.len() - idx,
    {
        let s = base[idx].sub(rhs[idx]);
        out.push(s);
        idx = idx + 1;
    }
    out
}

/// Element-wise comparison of two equal-length vectors of quantities of
/// one unit, index-wise paired, stopping at the first mismatch. True
/// exactly when every pair compares equal under the conventions of float
/// comparison (so a sentinel anywhere makes it false).
pub fn compare_unit_arrays<U: Unit>(base: &Vec<Qty<U>>, rhs: &Vec<Qty<U>>) -> (r: bool)
    requires
        base@.len() == rhs@.len(),
    ensures
        r == (forall|i: int| 0 <= i < base@.len() ==> spec_eq(base@[i]@, rhs@[i]@)),
{
    let mut idx: usize = 0;
    while idx < base.len()
        invariant
            base@.len() == rhs@.len(),
            idx <= base@.len(),
            forall|i: int| 0 <= i < idx as int ==> spec_eq(base@[i]@, rhs@[i]@),
        decreases base@.len() - idx,
    {
        if !base[idx].eq_qty(rhs[idx]) {
            proof {
                assert(0 <= (idx as int) < base@.len());
                assert(!spec_eq(base@[idx as int]@, rhs@[idx as int]@));
            }
            return false;
        }
        idx = idx + 1;
    }
    true
}

} // verus!
