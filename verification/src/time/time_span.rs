//! A signed duration with a resolution of a hundred nanoseconds.

use core::cmp::Ordering;
use core::ops::{Add, Neg, Sub};
use vstd::prelude::*;
use vstd::std_specs::cmp::PartialOrdSpec;

verus! {

/// Ticks in one millisecond.
pub const TICKS_PER_MILLISECOND: i64 = 10_000;

/// Ticks in one second.
pub const TICKS_PER_SECOND: i64 = 10_000_000;

/// Ticks in one minute.
pub const TICKS_PER_MINUTE: i64 = 600_000_000;

/// Ticks in one hour.
pub const TICKS_PER_HOUR: i64 = 36_000_000_000;

/// Ticks in one day.
pub const TICKS_PER_DAY: i64 = 864_000_000_000;

/// The tick count nearest to `t` that a span can hold.
pub open spec fn saturate(t: int) -> i64 {
    if t < i64::MIN {
        i64::MIN
    } else if t > i64::MAX {
        i64::MAX
    } else {
        t as i64
    }
}

/// A signed duration, counted in ticks of a hundred nanoseconds.
///
/// Every operation is total: a result that would leave the range of the tick
/// counter stops at the nearest bound.
#[derive(Clone, Copy, Debug, PartialEq, Eq, Structural, Hash)]
pub struct TimeSpan {
    /// The length in ticks; negative for a span before zero.
    pub ticks: i64,
}

impl TimeSpan {
    /// The span of no length, as a specification value.
    pub open spec fn spec_zero() -> TimeSpan {
        TimeSpan { ticks: 0 }
    }

    /// The span of `ticks` ticks, as a specification value.
    pub open spec fn of(ticks: int) -> TimeSpan {
        TimeSpan { ticks: saturate(ticks) }
    }

    /// The span of no length.
    #[verifier::when_used_as_spec(spec_zero)]
    pub fn zero() -> (result: TimeSpan)
        ensures
            result == Self::spec_zero(),
    {
        TimeSpan { ticks: 0 }
    }

    /// The span of exactly `ticks` ticks.
    pub fn from_ticks(ticks: i64) -> (result: TimeSpan)
        ensures
            result.ticks == ticks,
    {
        TimeSpan { ticks }
    }

    /// The span of `milliseconds` milliseconds.
    pub fn from_milliseconds(milliseconds: i64) -> (result: TimeSpan)
        ensures
            result == Self::of(milliseconds * TICKS_PER_MILLISECOND),
    {
        TimeSpan { ticks: scale(milliseconds, TICKS_PER_MILLISECOND) }
    }

    /// The span of `seconds` seconds.
    pub fn from_seconds(seconds: i64) -> (result: TimeSpan)
        ensures
            result == Self::of(seconds * TICKS_PER_SECOND),
    {
        TimeSpan { ticks: scale(seconds, TICKS_PER_SECOND) }
    }

    /// The length in ticks.
    pub fn total_ticks(&self) -> (result: i64)
        ensures
            result == self.ticks,
    {
        self.ticks
    }

    /// The whole seconds of the span, rounded towards zero.
    pub fn whole_seconds(&self) -> (result: i64)
        ensures
            self.ticks >= 0 ==> result == self.ticks / TICKS_PER_SECOND,
            self.ticks < 0 ==> result == -((-self.ticks) / TICKS_PER_SECOND as int),
    {
        self.ticks / TICKS_PER_SECOND
    }

    /// The whole milliseconds of the span, rounded towards zero.
    pub fn whole_milliseconds(&self) -> (result: i64)
        ensures
            self.ticks >= 0 ==> result == self.ticks / TICKS_PER_MILLISECOND,
            self.ticks < 0 ==> result == -((-self.ticks) / TICKS_PER_MILLISECOND as int),
    {
        self.ticks / TICKS_PER_MILLISECOND
    }

    /// The length of the span without its sign.
    pub fn magnitude(&self) -> (result: u64)
        ensures
            result == if self.ticks < 0 { -self.ticks } else { self.ticks as int },
    {
        if self.ticks < 0 {
            let below: i64 = -(self.ticks + 1);
            below as u64 + 1
        } else {
            self.ticks as u64
        }
    }

    /// Whether the span lies before zero.
    pub fn is_negative(&self) -> (result: bool)
        ensures
            result == (self.ticks < 0),
    {
        self.ticks < 0
    }

    /// The sum of both spans, stopping at the bounds of the tick counter.
    pub open spec fn plus(self, other: TimeSpan) -> TimeSpan {
        Self::of(self.ticks + other.ticks)
    }

    /// The difference of both spans, stopping at the bounds of the tick
    /// counter.
    pub open spec fn minus(self, other: TimeSpan) -> TimeSpan {
        Self::of(self.ticks - other.ticks)
    }

    /// The span of the same length on the other side of zero; the lowest
    /// span of all turns into the highest.
    pub open spec fn negated(self) -> TimeSpan {
        Self::of(-self.ticks)
    }
}

/// `value` times `unit`, stopping at the bounds of the tick counter.
fn scale(value: i64, unit: i64) -> (result: i64)
    requires
        unit > 0,
    ensures
        result == saturate(value * unit),
{
    assert(value * unit == unit * value) by (nonlinear_arith);
    match value.checked_mul(unit) {
        Some(product) => product,
        None => {
            assert(value >= 0 ==> value * unit >= 0) by (nonlinear_arith)
                requires
                    unit > 0,
            ;
            assert(value < 0 ==> value * unit < 0) by (nonlinear_arith)
                requires
                    unit > 0,
            ;
            if value < 0 {
                i64::MIN
            } else {
                i64::MAX
            }
        },
    }
}

impl Add for TimeSpan {
    type Output = TimeSpan;

    /// The sum of both spans, stopping at the bounds of the tick counter.
    fn add(self, rhs: TimeSpan) -> (result: TimeSpan) {
        match self.ticks.checked_add(rhs.ticks) {
            Some(sum) => TimeSpan { ticks: sum },
            None => if rhs.ticks < 0 {
                TimeSpan { ticks: i64::MIN }
            } else {
                TimeSpan { ticks: i64::MAX }
            },
        }
    }
}

impl vstd::std_specs::ops::AddSpecImpl for TimeSpan {
    open spec fn obeys_add_spec() -> bool {
        true
    }

    open spec fn add_req(self, rhs: TimeSpan) -> bool {
        true
    }

    open spec fn add_spec(self, rhs: TimeSpan) -> TimeSpan {
        self.plus(rhs)
    }
}

impl Sub for TimeSpan {
    type Output = TimeSpan;

    /// The difference of both spans, stopping at the bounds of the tick counter.
    fn sub(self, rhs: TimeSpan) -> (result: TimeSpan) {
        match self.ticks.checked_sub(rhs.ticks) {
            Some(difference) => TimeSpan { ticks: difference },
            None => if rhs.ticks > 0 {
                TimeSpan { ticks: i64::MIN }
            } else {
                TimeSpan { ticks: i64::MAX }
            },
        }
    }
}

impl vstd::std_specs::ops::SubSpecImpl for TimeSpan {
    open spec fn obeys_sub_spec() -> bool {
        true
    }

    open spec fn sub_req(self, rhs: TimeSpan) -> bool {
        true
    }

    open spec fn sub_spec(self, rhs: TimeSpan) -> TimeSpan {
        self.minus(rhs)
    }
}

impl Neg for TimeSpan {
    type Output = TimeSpan;

    /// The span of the same length on the other side of zero.
    fn neg(self) -> (result: TimeSpan) {
        if self.ticks == i64::MIN {
            TimeSpan { ticks: i64::MAX }
        } else {
            TimeSpan { ticks: -self.ticks }
        }
    }
}

impl vstd::std_specs::ops::NegSpecImpl for TimeSpan {
    open spec fn obeys_neg_spec() -> bool {
        true
    }

    open spec fn neg_req(self) -> bool {
        true
    }

    open spec fn neg_spec(self) -> TimeSpan {
        self.negated()
    }
}

impl PartialOrd for TimeSpan {
    fn partial_cmp(&self, other: &TimeSpan) -> (result: Option<Ordering>) {
        if self.ticks < other.ticks {
            Some(Ordering::Less)
        } else if self.ticks > other.ticks {
            Some(Ordering::Greater)
        } else {
            Some(Ordering::Equal)
        }
    }
}

impl vstd::std_specs::cmp::PartialOrdSpecImpl for TimeSpan {
    open spec fn obeys_partial_cmp_spec() -> bool {
        true
    }

    open spec fn partial_cmp_spec(&self, other: &TimeSpan) -> Option<Ordering> {
        if self.ticks < other.ticks {
            Some(Ordering::Less)
        } else if self.ticks > other.ticks {
            Some(Ordering::Greater)
        } else {
            Some(Ordering::Equal)
        }
    }
}

/// Any two spans are ordered, and they are ordered as their tick counts are:
/// exactly one of less, equal and greater holds.
pub proof fn lemma_order_follows_ticks(a: TimeSpan, b: TimeSpan)
    ensures
        a.partial_cmp_spec(&b) is Some,
        a.partial_cmp_spec(&b) == Some(Ordering::Less) <==> a.ticks < b.ticks,
        a.partial_cmp_spec(&b) == Some(Ordering::Equal) <==> a == b,
        a.partial_cmp_spec(&b) == Some(Ordering::Greater) <==> a.ticks > b.ticks,
        a.partial_cmp_spec(&b) == Some(Ordering::Less) <==> b.partial_cmp_spec(&a) == Some(
            Ordering::Greater,
        ),
{
}

/// The order of spans is transitive.
pub proof fn lemma_order_is_transitive(a: TimeSpan, b: TimeSpan, c: TimeSpan)
    requires
        a.partial_cmp_spec(&b) == Some(Ordering::Less) || a == b,
        b.partial_cmp_spec(&c) == Some(Ordering::Less) || b == c,
    ensures
        a.partial_cmp_spec(&c) == Some(Ordering::Less) || a == c,
{
}

/// Adding the span of no length changes nothing, on either side.
pub proof fn lemma_zero_is_additive_identity(x: TimeSpan)
    ensures
        TimeSpan::zero().plus(x) == x,
        x.plus(TimeSpan::zero()) == x,
        x.minus(TimeSpan::zero()) == x,
{
}

/// Negating twice gives the span back, except for the lowest span of all,
/// whose negation stops at the highest.
pub proof fn lemma_negation_is_an_involution(x: TimeSpan)
    requires
        x.ticks > i64::MIN,
    ensures
        x.negated().negated() == x,
{
}

} // verus!
