//! Fractions `p`/`q` of two numbers: `p` the numerator, `q` the denominator.

use vstd::prelude::*;
use vstd::std_specs::convert::IntoSpec;
use crate::math::uint::Uint256;

verus! {

/// A fraction `p`/`q`.
pub trait Fraction<T>: Sized {
    /// The numerator and the denominator, in this order.
    spec fn parts(&self) -> (T, T);

    /// Whether the numerator is the number zero.
    spec fn numerator_is_zero(&self) -> bool;

    /// Whether the conversions that the fraction relies on are specified,
    /// so that the numerator can be told from zero.
    spec fn lawful() -> bool;

    /// Returns the numerator `p`.
    fn numerator(&self) -> (out: T)
        ensures
            out == self.parts().0,
    ;

    /// Returns the denominator `q`.
    fn denominator(&self) -> (out: T)
        ensures
            out == self.parts().1,
    ;

    /// Returns the multiplicative inverse `q`/`p`, or nothing where `p` is zero.
    fn inv(&self) -> (out: Option<Self>)
        ensures
            Self::lawful() ==> (out is None <==> self.numerator_is_zero()),
            out is Some ==> out->0.parts() == (self.parts().1, self.parts().0),
    ;
}

impl<T: Copy + Into<Uint256>> Fraction<T> for (T, T) {
    open spec fn parts(&self) -> (T, T) {
        (self.0, self.1)
    }

    open spec fn numerator_is_zero(&self) -> bool {
        self.0.into_spec()@ == 0
    }

    open spec fn lawful() -> bool {
        T::obeys_into_spec()
    }

    fn numerator(&self) -> (out: T) {
        self.0
    }

    fn denominator(&self) -> (out: T) {
        self.1
    }

    fn inv(&self) -> (out: Option<Self>) {
        let p: Uint256 = self.numerator().into();
        if p.is_zero() {
            None
        } else {
            Some((self.1, self.0))
        }
    }
}

} // verus!
