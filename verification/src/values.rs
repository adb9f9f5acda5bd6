use vstd::prelude::*;

verus! {

/// A 64-bit IEEE-754 value carried as its raw bit pattern.
///
/// The telemetry sources report power and energy as 64-bit binary
/// floating-point numbers. The library never does arithmetic on these values:
/// it only moves them from readings into points and compares readings for
/// equality. Carrying the bit pattern keeps that logic exact; the HTTP layer
/// converts to and from the native representation at the edge.
#[derive(Clone, Copy, Debug, PartialEq, Eq, Structural)]
pub struct FloatBits {
    pub bits: u64,
}

} // verus!
