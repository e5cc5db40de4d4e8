//! Unsigned integers of 64, 128 and 256 bits.

use vstd::prelude::*;

verus! {

/// An unsigned integer of 64 bits.
#[derive(Clone, Copy, Debug, PartialEq, Eq, Structural)]
pub struct Uint64(pub u64);

/// An unsigned integer of 128 bits.
#[derive(Clone, Copy, Debug, PartialEq, Eq, Structural)]
pub struct Uint128(pub u128);

/// An unsigned integer of 256 bits, as its upper and its lower half.
#[derive(Clone, Copy, Debug, PartialEq, Eq, Structural)]
pub struct Uint256 {
    pub high: u128,
    pub low: u128,
}

impl View for Uint64 {
    type V = nat;

    open spec fn view(&self) -> nat {
        self.0 as nat
    }
}

impl View for Uint128 {
    type V = nat;

    open spec fn view(&self) -> nat {
        self.0 as nat
    }
}

impl View for Uint256 {
    type V = nat;

    open spec fn view(&self) -> nat {
        (self.high * 0x1_0000_0000_0000_0000_0000_0000_0000_0000 + self.low) as nat
    }
}

impl Uint64 {
    pub fn new(value: u64) -> (out: Self)
        ensures
            out@ == value,
    {
        Uint64(value)
    }

    pub fn zero() -> (out: Self)
        ensures
            out@ == 0,
    {
        Uint64(0)
    }

    pub fn one() -> (out: Self)
        ensures
            out@ == 1,
    {
        Uint64(1)
    }

    pub fn u64(&self) -> (out: u64)
        ensures
            out == self@,
    {
        self.0
    }
}

impl Uint128 {
    pub fn new(value: u128) -> (out: Self)
        ensures
            out@ == value,
    {
        Uint128(value)
    }

    pub fn zero() -> (out: Self)
        ensures
            out@ == 0,
    {
        Uint128(0)
    }

    pub fn one() -> (out: Self)
        ensures
            out@ == 1,
    {
        Uint128(1)
    }

    pub fn u128(&self) -> (out: u128)
        ensures
            out == self@,
    {
        self.0
    }
}

impl Uint256 {
    pub fn zero() -> (out: Self)
        ensures
            out@ == 0,
    {
        Uint256 { high: 0, low: 0 }
    }

    pub fn is_zero(&self) -> (out: bool)
        ensures
            out == (self@ == 0),
    {
        self.high == 0 && self.low == 0
    }
}

impl vstd::std_specs::convert::FromSpecImpl<Uint64> for Uint256 {
    open spec fn obeys_from_spec() -> bool {
        true
    }

    open spec fn from_spec(value: Uint64) -> Uint256 {
        Uint256 { high: 0, low: value.0 as u128 }
    }
}

impl From<Uint64> for Uint256 {
    fn from(value: Uint64) -> (out: Uint256) {
        Uint256 { high: 0, low: value.0 as u128 }
    }
}

impl vstd::std_specs::convert::FromSpecImpl<Uint128> for Uint256 {
    open spec fn obeys_from_spec() -> bool {
        true
    }

    open spec fn from_spec(value: Uint128) -> Uint256 {
        Uint256 { high: 0, low: value.0 }
    }
}

impl From<Uint128> for Uint256 {
    fn from(value: Uint128) -> (out: Uint256) {
        Uint256 { high: 0, low: value.0 }
    }
}

} // verus!
