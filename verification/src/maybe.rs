//! The "known or raw" result of decoding a field drawn from a closed
//! enumeration: either a recognised named constant, or the original numeric
//! code preserved verbatim. An unrecognised code is a first-class successful
//! outcome, never an error.

use vstd::prelude::*;

verus! {

/// Either a named constant from a closed set, or the raw code that no
/// constant is registered for.
#[derive(Clone, Copy, Debug, PartialEq, Eq)]
pub enum Maybe<T, V> {
    Known(T),
    Unknown(V),
}

} // verus!
