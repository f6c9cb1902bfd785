//! An optional value whose presence is a flag beside the value.
use vstd::prelude::*;

verus! {

/// A value together with a flag that says whether it is present.
///
/// The value is stored in either case, so building one and reading its flag
/// never branches on the value.
#[derive(Clone, Copy, Debug)]
pub struct ConstCtOption<T> {
    value: T,
    is_some: bool,
}

impl<T> View for ConstCtOption<T> {
    type V = Option<T>;

    /// `Some` of the stored value where the flag is set, else `None`.
    closed spec fn view(&self) -> Option<T> {
        if self.is_some {
            Some(self.value)
        } else {
            None
        }
    }
}

impl<T> ConstCtOption<T> {
    /// The present `value`.
    pub fn some(value: T) -> (r: Self)
        ensures
            r@ == Some(value),
    {
        ConstCtOption { value, is_some: true }
    }

    /// The absent value; `value` only fills the storage.
    pub fn none(value: T) -> (r: Self)
        ensures
            r@ is None,
    {
        ConstCtOption { value, is_some: false }
    }

    /// Whether the value is present.
    pub fn is_some(&self) -> (b: bool)
        ensures
            b == (self@ is Some),
    {
        self.is_some
    }

    /// Whether the value is absent.
    pub fn is_none(&self) -> (b: bool)
        ensures
            b == (self@ is None),
    {
        !self.is_some
    }

    /// The value, which must be present.
    pub fn unwrap(self) -> (v: T)
        requires
            self@ is Some,
        ensures
            self@ == Some(v),
    {
        self.value
    }
}

} // verus!
