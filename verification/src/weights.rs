//! The weights of the operations on nomination pools.

use vstd::prelude::*;
use crate::engine::Weight;

verus! {

/// The weight of each operation on nomination pools.
pub trait WeightInfo {
    fn join() -> Weight;

    fn claim_payout() -> Weight;

    fn unbond_other() -> Weight;

    fn pool_withdraw_unbonded(s: u32) -> Weight;

    fn withdraw_unbonded_other(s: u32) -> Weight;

    fn create() -> Weight;

    fn nominate() -> Weight;
}

/// The weights under which every operation is free.
impl WeightInfo for () {
    fn join() -> (weight: Weight)
        ensures
            weight == 0,
    {
        0
    }

    fn claim_payout() -> (weight: Weight)
        ensures
            weight == 0,
    {
        0
    }

    fn unbond_other() -> (weight: Weight)
        ensures
            weight == 0,
    {
        0
    }

    fn pool_withdraw_unbonded(_s: u32) -> (weight: Weight)
        ensures
            weight == 0,
    {
        0
    }

    fn withdraw_unbonded_other(_s: u32) -> (weight: Weight)
        ensures
            weight == 0,
    {
        0
    }

    fn create() -> (weight: Weight)
        ensures
            weight == 0,
    {
        0
    }

    fn nominate() -> (weight: Weight)
        ensures
            weight == 0,
    {
        0
    }
}

} // verus!
