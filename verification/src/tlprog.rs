//! Type-level programming markers.
//!
//! Zero-sized markers for naming things at the type level: natural
//! numbers as slot indices, and an option whose presence is fixed at
//! compile time.  The runtime-checked builder in this crate does not
//! depend on them, but callers that name schema slots with marker types
//! can keep doing so.

use core::marker::PhantomData;

use vstd::prelude::*;

verus! {

/// A natural number at the type level.
pub trait TLNatural {

}

/// The type-level natural zero.
pub struct Zero;

impl TLNatural for Zero {

}

/// The successor of a type-level natural.
pub struct Successor<T: TLNatural>(PhantomData<T>);

impl<T: TLNatural> TLNatural for Successor<T> {

}

/// An option whose presence or absence is fixed at the type level; it
/// reifies into the ordinary runtime option.
pub trait TLOption<T>: Sized {
    /// The runtime option this type-level option stands for.
    spec fn spec_reify(self) -> Option<T>;

    /// Turns the type-level option into its runtime value.
    fn reify(self) -> (r: Option<T>)
        ensures
            r == self.spec_reify(),
    ;
}

/// The type-level `None`.
pub struct TLNone;

impl<T> TLOption<T> for TLNone {
    open spec fn spec_reify(self) -> Option<T> {
        None
    }

    fn reify(self) -> (r: Option<T>) {
        None
    }
}

/// The type-level `Some`, carrying its value.
pub struct TLSome<T>(pub T);

impl<T> TLOption<T> for TLSome<T> {
    open spec fn spec_reify(self) -> Option<T> {
        Some(self.0)
    }

    fn reify(self) -> (r: Option<T>) {
        Some(self.0)
    }
}

} // verus!
