//! A wrapper that selects wrap-around operators.
use vstd::prelude::*;

verus! {

/// Wraps a number so that its operators wrap around instead of failing.
/// It holds the number and nothing else.
#[derive(Clone, Copy, Debug, PartialEq, Eq, Hash)]
pub struct Wrapping<T>(pub T);

} // verus!
