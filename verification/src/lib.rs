//! Verified core of a STREAM-style sustainable-memory-bandwidth micro-benchmark.
//!
//! The library holds the three pieces of the methodology that carry the
//! intellectual content of the benchmark:
//!
//! * the four memory-bound kernels (Copy, Scale, Add, Triad) with their
//!   byte-traffic accounting ([`kernels`]),
//! * the timing methodology: clock-granularity calibration ([`calibrate`]) and
//!   min/avg/max aggregation over repeated trials, first trial discarded
//!   ([`aggregate`]),
//! * the numerical validation that independently replays the kernel recurrence
//!   on scalars and checks the measured arrays against it within a relative
//!   tolerance ([`validate`]).
//!
//! Array elements are modelled as 64-bit integers.  The benchmark seeds the
//! arrays with the values 1, 2 and 0 and only ever copies, adds and scales by
//! a small integer constant, so every value that arises is an integer that an
//! 8-byte floating-point element represents exactly; the integer model is
//! therefore exact, and all contracts speak of exact integer arithmetic.
//! Wall-clock reading itself is left to the caller: timing enters the library
//! as plain microsecond or nanosecond counts.

pub mod aggregate;
pub mod calibrate;
pub mod kernels;
pub mod validate;

use vstd::prelude::*;

verus! {

/// Default number of elements in each of the three arrays.
pub const DEFAULT_ARRAY_SIZE: usize = 10000000;

/// Default number of timed trials of the four-kernel cycle.
pub const DEFAULT_NTIMES: usize = 10;

/// Number of clock samples taken when estimating the clock granularity.
pub const CALIBRATION_SAMPLES: usize = 10;

/// Scalar constant shared by the Scale and Triad kernels.
pub const STREAM_SCALAR: i64 = 3;

/// Width of one array element in bytes.
pub const BYTES_PER_ELEMENT: usize = 8;

/// Reciprocal of the relative-error tolerance used by validation
/// (the tolerance itself is `1 / EPSILON_RECIP`).
pub const EPSILON_RECIP: u128 = 10000000000000;

/// Largest element magnitude validation accepts: `2^53`, the largest
/// integer range an 8-byte floating-point element represents exactly.
pub const MAX_ELEMENT_MAGNITUDE: i64 = 9007199254740992;

/// Largest array length validation accepts; keeps every error sum well
/// inside the 128-bit accumulators.
pub const MAX_VALIDATED_LEN: usize = 1000000000;

} // verus!
