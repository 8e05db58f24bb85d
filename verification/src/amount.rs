//! Monetary amounts, counted in the smallest unit.

use vstd::prelude::*;

verus! {

/// A non-negative amount of coins, stored as a whole number of the smallest
/// unit.
#[derive(Clone, Copy, Debug, PartialEq, Eq, Hash)]
pub struct Amount {
    pub raw: u64,
}

impl View for Amount {
    type V = nat;

    open spec fn view(&self) -> nat {
        self.raw as nat
    }
}

impl Amount {
    /// The amount made of `raw` smallest units.
    pub fn from_raw(raw: u64) -> (a: Amount)
        ensures
            a@ == raw,
    {
        Amount { raw }
    }

    /// The number of smallest units in the amount.
    pub fn to_raw(&self) -> (raw: u64)
        ensures
            raw == self@,
    {
        self.raw
    }

    /// The sum of two amounts, or `None` where it cannot be represented.
    pub fn checked_add(self, other: Amount) -> (sum: Option<Amount>)
        ensures
            sum == if self@ + other@ <= u64::MAX {
                Some(Amount { raw: (self.raw + other.raw) as u64 })
            } else {
                None
            },
    {
        if self.raw <= u64::MAX - other.raw {
            Some(Amount { raw: self.raw + other.raw })
        } else {
            None
        }
    }

    /// The difference of two amounts, or `None` where `other` is the larger.
    pub fn checked_sub(self, other: Amount) -> (diff: Option<Amount>)
        ensures
            diff == if self@ >= other@ {
                Some(Amount { raw: (self.raw - other.raw) as u64 })
            } else {
                None
            },
    {
        if self.raw >= other.raw {
            Some(Amount { raw: self.raw - other.raw })
        } else {
            None
        }
    }

    /// Whether the amount is at least `other`.
    pub fn at_least(&self, other: &Amount) -> (b: bool)
        ensures
            b == (self@ >= other@),
    {
        self.raw >= other.raw
    }
}

} // verus!
