//! The compression level handed to the engine.

use vstd::prelude::*;

verus! {

/// The strongest level the engine accepts.
pub const MAX_LEVEL: u8 = 9;

/// A compression level between 0 and [`MAX_LEVEL`]; higher is stronger and slower.
///
/// The range is an invariant of the type: a value outside it cannot be built.
#[derive(Clone, Copy, Debug, PartialEq, Eq, Structural)]
pub struct CompressionLevel {
    value: u8,
}

impl View for CompressionLevel {
    type V = nat;

    closed spec fn view(&self) -> nat {
        self.value as nat
    }
}

impl CompressionLevel {
    #[verifier::type_invariant]
    spec fn in_range(self) -> bool {
        self.value <= MAX_LEVEL
    }

    /// Accepts `value` exactly when it is at most [`MAX_LEVEL`].
    pub fn new(value: u8) -> (level: Option<CompressionLevel>)
        ensures
            level is Some <==> value <= MAX_LEVEL,
            level matches Some(l) ==> l@ == value,
    {
        if value <= MAX_LEVEL {
            Some(CompressionLevel { value })
        } else {
            None
        }
    }

    /// The level as a number, which is at most [`MAX_LEVEL`].
    pub fn value(self) -> (value: u8)
        ensures
            value == self@,
            value <= MAX_LEVEL,
    {
        proof {
            use_type_invariant(&self);
        }
        self.value
    }
}

} // verus!
