//! Values that are known when a proof is made and unknown when only the shape
//! of the circuit is needed.

use vstd::prelude::*;

verus! {

/// A value that is either fully known or fully unknown.
#[derive(Debug, PartialEq, Eq)]
pub enum Witness<T> {
    /// No value: the circuit is laid out without a witness.
    Unknown,
    /// The value that the prover holds.
    Known(T),
}

impl<T> Witness<T> {
    /// The witness that holds `value`.
    pub fn known(value: T) -> (w: Self)
        ensures
            w == Witness::Known(value),
    {
        Witness::Known(value)
    }

    /// The witness that holds nothing.
    pub fn unknown() -> (w: Self)
        ensures
            w == Witness::<T>::Unknown,
    {
        Witness::Unknown
    }

    /// Applies `f` to the value, if there is one. An unknown witness stays
    /// unknown and `f` is not called.
    pub fn map<U, F: FnOnce(T) -> U>(self, f: F) -> (w: Witness<U>)
        requires
            self matches Witness::Known(v) ==> f.requires((v,)),
        ensures
            self is Unknown ==> w is Unknown,
            self matches Witness::Known(v) ==> w is Known && f.ensures((v,), w->Known_0),
    {
        match self {
            Witness::Unknown => Witness::Unknown,
            Witness::Known(v) => Witness::Known(f(v)),
        }
    }
}

impl<T: Copy> Clone for Witness<T> {
    fn clone(&self) -> (w: Self)
        ensures
            w == *self,
    {
        *self
    }
}

impl<T: Copy> Copy for Witness<T> {

}

impl<T> Default for Witness<T> {
    fn default() -> (w: Self)
        ensures
            w == Witness::<T>::Unknown,
    {
        Witness::Unknown
    }
}

} // verus!
