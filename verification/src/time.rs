//! Time values of the synchronized clock domain.
//!
//! [`Instant`] is an absolute timestamp of the session clock and [`Duration`]
//! a signed delta between two such timestamps, both counted in microseconds
//! in a signed 64-bit value. All arithmetic saturates at the 64-bit
//! boundary, so every operation is total.

use vstd::arithmetic::div_mod::lemma_div_is_ordered;
use vstd::arithmetic::div_mod::lemma_div_pos_is_pos;
use vstd::prelude::*;

verus! {

/// Result of clamping a mathematical integer into the `i64` range; the value
/// every saturating operation of this module returns.
pub open spec fn clamp_i64(x: int) -> int {
    if x > i64::MAX as int {
        i64::MAX as int
    } else if x < i64::MIN as int {
        i64::MIN as int
    } else {
        x
    }
}

/// Quotient of `a` by a positive divisor `d`, rounded toward zero; the
/// value the unit conversions of [`Duration`] return.
pub open spec fn div_trunc(a: int, d: int) -> int {
    if a >= 0 {
        a / d
    } else {
        -((-a) / d)
    }
}

/// Saturating narrowing of a 128-bit intermediate result to 64 bits.
fn clamp_to_i64(x: i128) -> (r: i64)
    ensures
        r as int == clamp_i64(x as int),
{
    if x > i64::MAX as i128 {
        i64::MAX
    } else if x < i64::MIN as i128 {
        i64::MIN
    } else {
        x as i64
    }
}

/// Truncating division of a 64-bit value by a positive divisor.
fn div_trunc_i64(a: i64, d: i64) -> (r: i64)
    requires
        1 <= d,
    ensures
        r as int == div_trunc(a as int, d as int),
{
    if a >= 0 {
        let q: u64 = (a as u64) / (d as u64);
        proof {
            lemma_div_is_ordered(a as int, i64::MAX as int, d as int);
            lemma_div_is_ordered(0, a as int, d as int);
            lemma_div_pos_is_pos(i64::MAX as int, d as int);
        }
        q as i64
    } else {
        let m: i128 = -(a as i128);
        let q: u128 = (m as u128) / (d as u128);
        proof {
            lemma_div_is_ordered(m as int, -(i64::MIN as int), d as int);
            lemma_div_is_ordered(0, m as int, d as int);
        }
        (-(q as i128)) as i64
    }
}

/// A point in time on the session clock, measured in microseconds.
///
/// An `Instant` is an absolute timestamp in the clock domain that the
/// external synchronization engine keeps aligned across peers. Instants are
/// totally ordered; they are meaningful only relative to the engine instance
/// whose clock produced them.
#[derive(Clone, Copy, Debug, Hash, PartialEq, Eq, Structural)]
pub struct Instant {
    micros: i64,
}

impl View for Instant {
    type V = int;

    closed spec fn view(&self) -> int {
        self.micros as int
    }
}

impl Instant {
    /// Creates an `Instant` from a microsecond timestamp.
    pub fn from_micros(micros: i64) -> (r: Instant)
        ensures
            r@ == micros as int,
    {
        Instant { micros }
    }

    /// The timestamp in microseconds.
    pub fn as_micros(self) -> (r: i64)
        ensures
            r as int == self@,
    {
        self.micros
    }

    /// Adds microseconds to this time, saturating at the 64-bit boundary.
    pub fn add_micros(self, micros: i64) -> (r: Instant)
        ensures
            r@ == clamp_i64(self@ + micros as int),
    {
        Instant { micros: clamp_to_i64((self.micros as i128) + (micros as i128)) }
    }

    /// Subtracts microseconds from this time, saturating at the 64-bit
    /// boundary.
    pub fn sub_micros(self, micros: i64) -> (r: Instant)
        ensures
            r@ == clamp_i64(self@ - micros as int),
    {
        Instant { micros: clamp_to_i64((self.micros as i128) - (micros as i128)) }
    }

    /// Adds milliseconds to this time, saturating at the 64-bit boundary.
    pub fn add_millis(self, millis: i64) -> (r: Instant)
        ensures
            r@ == clamp_i64(self@ + millis as int * 1_000),
    {
        Instant { micros: clamp_to_i64((self.micros as i128) + (millis as i128) * 1_000) }
    }

    /// Subtracts milliseconds from this time, saturating at the 64-bit
    /// boundary.
    pub fn sub_millis(self, millis: i64) -> (r: Instant)
        ensures
            r@ == clamp_i64(self@ - millis as int * 1_000),
    {
        Instant { micros: clamp_to_i64((self.micros as i128) - (millis as i128) * 1_000) }
    }

    /// Adds seconds to this time, saturating at the 64-bit boundary.
    pub fn add_secs(self, secs: i64) -> (r: Instant)
        ensures
            r@ == clamp_i64(self@ + secs as int * 1_000_000),
    {
        Instant { micros: clamp_to_i64((self.micros as i128) + (secs as i128) * 1_000_000) }
    }

    /// Subtracts seconds from this time, saturating at the 64-bit boundary.
    pub fn sub_secs(self, secs: i64) -> (r: Instant)
        ensures
            r@ == clamp_i64(self@ - secs as int * 1_000_000),
    {
        Instant { micros: clamp_to_i64((self.micros as i128) - (secs as i128) * 1_000_000) }
    }

    /// Moves this time forward by a signed duration, saturating at the
    /// 64-bit boundary.
    pub fn add_duration(self, d: Duration) -> (r: Instant)
        ensures
            r@ == clamp_i64(self@ + d@),
    {
        Instant { micros: clamp_to_i64((self.micros as i128) + (d.as_micros() as i128)) }
    }

    /// Moves this time backward by a signed duration, saturating at the
    /// 64-bit boundary.
    pub fn sub_duration(self, d: Duration) -> (r: Instant)
        ensures
            r@ == clamp_i64(self@ - d@),
    {
        Instant { micros: clamp_to_i64((self.micros as i128) - (d.as_micros() as i128)) }
    }

    /// The signed duration from `earlier` to this time, saturating at the
    /// 64-bit boundary.
    pub fn duration_since(self, earlier: Instant) -> (r: Duration)
        ensures
            r@ == clamp_i64(self@ - earlier@),
    {
        Duration { micros: clamp_to_i64((self.micros as i128) - (earlier.micros as i128)) }
    }
}

impl Default for Instant {
    /// The clock origin, zero microseconds.
    fn default() -> (r: Instant)
        ensures
            r@ == 0,
    {
        Instant { micros: 0 }
    }
}

impl PartialOrd for Instant {
    fn partial_cmp(&self, other: &Instant) -> (r: Option<core::cmp::Ordering>) {
        if self.micros < other.micros {
            Some(core::cmp::Ordering::Less)
        } else if self.micros == other.micros {
            Some(core::cmp::Ordering::Equal)
        } else {
            Some(core::cmp::Ordering::Greater)
        }
    }
}

impl vstd::std_specs::cmp::PartialOrdSpecImpl for Instant {
    open spec fn obeys_partial_cmp_spec() -> bool {
        true
    }

    open spec fn partial_cmp_spec(&self, other: &Instant) -> Option<core::cmp::Ordering> {
        if self@ < other@ {
            Some(core::cmp::Ordering::Less)
        } else if self@ == other@ {
            Some(core::cmp::Ordering::Equal)
        } else {
            Some(core::cmp::Ordering::Greater)
        }
    }
}

/// A signed span of time, measured in microseconds.
///
/// Unlike the standard library's duration type this one is signed, so the
/// difference of two [`Instant`] values is always representable. Durations
/// are closed under addition, subtraction, scalar multiplication and
/// division, and absolute value; all of it saturating at the 64-bit
/// boundary.
#[derive(Clone, Copy, Debug, Hash, PartialEq, Eq, Structural)]
pub struct Duration {
    micros: i64,
}

impl View for Duration {
    type V = int;

    closed spec fn view(&self) -> int {
        self.micros as int
    }
}

impl Duration {
    /// The empty span.
    pub fn zero() -> (r: Duration)
        ensures
            r@ == 0,
    {
        Duration { micros: 0 }
    }

    /// Creates a `Duration` from microseconds.
    pub fn from_micros(micros: i64) -> (r: Duration)
        ensures
            r@ == micros as int,
    {
        Duration { micros }
    }

    /// Creates a `Duration` from milliseconds, saturating at the 64-bit
    /// boundary.
    pub fn from_millis(millis: i64) -> (r: Duration)
        ensures
            r@ == clamp_i64(millis as int * 1_000),
    {
        Duration { micros: clamp_to_i64((millis as i128) * 1_000) }
    }

    /// Creates a `Duration` from seconds, saturating at the 64-bit boundary.
    pub fn from_secs(secs: i64) -> (r: Duration)
        ensures
            r@ == clamp_i64(secs as int * 1_000_000),
    {
        Duration { micros: clamp_to_i64((secs as i128) * 1_000_000) }
    }

    /// The span in microseconds.
    pub fn as_micros(self) -> (r: i64)
        ensures
            r as int == self@,
    {
        self.micros
    }

    /// The span in milliseconds, truncating toward zero.
    pub fn as_millis(self) -> (r: i64)
        ensures
            r as int == div_trunc(self@, 1_000),
    {
        div_trunc_i64(self.micros, 1_000)
    }

    /// The span in seconds, truncating toward zero.
    pub fn as_secs(self) -> (r: i64)
        ensures
            r as int == div_trunc(self@, 1_000_000),
    {
        div_trunc_i64(self.micros, 1_000_000)
    }

    /// The absolute value of this span, saturating at the 64-bit boundary.
    pub fn abs(self) -> (r: Duration)
        ensures
            r@ == clamp_i64(if self@ < 0 {
                -self@
            } else {
                self@
            }),
    {
        if self.micros < 0 {
            Duration { micros: clamp_to_i64(-(self.micros as i128)) }
        } else {
            self
        }
    }

    /// The sum of two spans, saturating at the 64-bit boundary.
    pub fn add_duration(self, rhs: Duration) -> (r: Duration)
        ensures
            r@ == clamp_i64(self@ + rhs@),
    {
        Duration { micros: clamp_to_i64((self.micros as i128) + (rhs.micros as i128)) }
    }

    /// The difference of two spans, saturating at the 64-bit boundary.
    pub fn sub_duration(self, rhs: Duration) -> (r: Duration)
        ensures
            r@ == clamp_i64(self@ - rhs@),
    {
        Duration { micros: clamp_to_i64((self.micros as i128) - (rhs.micros as i128)) }
    }

    /// This span scaled by an integer factor, saturating at the 64-bit
    /// boundary.
    pub fn scale(self, factor: i64) -> (r: Duration)
        ensures
            r@ == clamp_i64(self@ * factor as int),
    {
        let a: i128 = self.micros as i128;
        let f: i128 = factor as i128;
        proof {
            assert(i128::MIN as int <= a as int * f as int <= i128::MAX as int)
                by (nonlinear_arith)
                requires
                    -0x8000_0000_0000_0000 <= a as int <= 0x7FFF_FFFF_FFFF_FFFF,
                    -0x8000_0000_0000_0000 <= f as int <= 0x7FFF_FFFF_FFFF_FFFF,
            ;
        }
        Duration { micros: clamp_to_i64(a * f) }
    }

    /// This span divided by a positive integer factor, truncating toward
    /// zero.
    pub fn div_by(self, divisor: i64) -> (r: Duration)
        requires
            1 <= divisor,
        ensures
            r@ == div_trunc(self@, divisor as int),
    {
        Duration { micros: div_trunc_i64(self.micros, divisor) }
    }
}

impl Default for Duration {
    /// The empty span.
    fn default() -> (r: Duration)
        ensures
            r@ == 0,
    {
        Duration { micros: 0 }
    }
}

impl PartialOrd for Duration {
    fn partial_cmp(&self, other: &Duration) -> (r: Option<core::cmp::Ordering>) {
        if self.micros < other.micros {
            Some(core::cmp::Ordering::Less)
        } else if self.micros == other.micros {
            Some(core::cmp::Ordering::Equal)
        } else {
            Some(core::cmp::Ordering::Greater)
        }
    }
}

impl vstd::std_specs::cmp::PartialOrdSpecImpl for Duration {
    open spec fn obeys_partial_cmp_spec() -> bool {
        true
    }

    open spec fn partial_cmp_spec(&self, other: &Duration) -> Option<core::cmp::Ordering> {
        if self@ < other@ {
            Some(core::cmp::Ordering::Less)
        } else if self@ == other@ {
            Some(core::cmp::Ordering::Equal)
        } else {
            Some(core::cmp::Ordering::Greater)
        }
    }
}

} // verus!
