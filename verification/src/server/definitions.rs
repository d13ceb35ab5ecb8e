//! Amounts and the schemas exchanged with the merchant.

use core::cmp::Ordering;
use vstd::prelude::*;
use vstd::std_specs::cmp::PartialOrdSpecImpl;

pub mod api_v2;
pub mod new;

verus! {

/// An amount in the smallest denomination of its currency.
#[derive(Clone, Copy, Debug, PartialEq, Eq, Structural)]
pub struct Balance(pub u128);

impl View for Balance {
    type V = nat;

    open spec fn view(&self) -> nat {
        self.0 as nat
    }
}

impl PartialOrd for Balance {
    fn partial_cmp(&self, other: &Balance) -> (r: Option<Ordering>) {
        if self.0 < other.0 {
            Some(Ordering::Less)
        } else if self.0 == other.0 {
            Some(Ordering::Equal)
        } else {
            Some(Ordering::Greater)
        }
    }
}

impl PartialOrdSpecImpl for Balance {
    open spec fn obeys_partial_cmp_spec() -> bool {
        true
    }

    open spec fn partial_cmp_spec(&self, other: &Balance) -> Option<Ordering> {
        if self.0 < other.0 {
            Some(Ordering::Less)
        } else if self.0 == other.0 {
            Some(Ordering::Equal)
        } else {
            Some(Ordering::Greater)
        }
    }
}

impl core::ops::Deref for Balance {
    type Target = u128;

    fn deref(&self) -> (units: &u128)
        ensures
            *units == self.0,
    {
        &self.0
    }
}

impl core::ops::Sub for Balance {
    type Output = Self;

    fn sub(self, r: Self) -> (difference: Self) {
        Balance(self.0 - r.0)
    }
}

impl vstd::std_specs::ops::SubSpecImpl for Balance {
    open spec fn obeys_sub_spec() -> bool {
        true
    }

    open spec fn sub_req(self, r: Self) -> bool {
        r.0 <= self.0
    }

    open spec fn sub_spec(self, r: Self) -> Self {
        Balance((self.0 - r.0) as u128)
    }
}

} // verus!
