//! Points in time and spans of time, counted in whole microseconds.
//!
//! The library reads no clock. An `Instant` is the clock's reading as the
//! caller took it, in microseconds from an origin of that clock.

use vstd::prelude::*;

verus! {

pub const NANOS_PER_SEC: u32 = 1_000_000_000;

pub const MICROS_PER_SEC: u64 = 1_000_000;

pub const NANOS_PER_MICRO: u32 = 1_000;

/// A span of time: whole seconds and a fraction in nanoseconds.
#[derive(Clone, Copy, Debug, PartialEq, Eq, Structural)]
pub struct Duration {
    secs: u64,
    nanos: u32,
}

impl Duration {
    pub closed spec fn spec_as_secs(&self) -> u64 {
        self.secs
    }

    pub closed spec fn spec_subsec_nanos(&self) -> u32 {
        self.nanos
    }

    /// The fraction is less than a second.
    pub open spec fn wf(&self) -> bool {
        self.subsec_nanos() < NANOS_PER_SEC
    }

    /// The span in whole microseconds, rounded down.
    pub open spec fn spec_as_micros(&self) -> nat {
        (self.as_secs() * MICROS_PER_SEC + self.subsec_nanos() / NANOS_PER_MICRO) as nat
    }

    /// The span is exactly `micros` microseconds: so many whole seconds,
    /// and the rest as nanoseconds.
    pub open spec fn is_micros(&self, micros: int) -> bool {
        &&& self.as_secs() == micros / (MICROS_PER_SEC as int)
        &&& self.subsec_nanos() == (micros % (MICROS_PER_SEC as int)) * NANOS_PER_MICRO
    }

    /// The span of `micros` microseconds.
    pub closed spec fn spec_from_micros(micros: u64) -> Duration {
        Duration {
            secs: micros / MICROS_PER_SEC,
            nanos: ((micros % MICROS_PER_SEC) * NANOS_PER_MICRO) as u32,
        }
    }

    /// The span of `micros` microseconds is exactly that many microseconds.
    pub proof fn lemma_from_micros(micros: u64)
        ensures
            Self::spec_from_micros(micros).wf(),
            Self::spec_from_micros(micros).is_micros(micros as int),
            Self::spec_from_micros(micros).spec_as_micros() == micros,
    {
        let rest = micros % MICROS_PER_SEC;
        assert((rest * NANOS_PER_MICRO) / (NANOS_PER_MICRO as int) == rest);
    }

    /// Two spans of the same seconds and the same fraction are the same
    /// span.
    pub proof fn lemma_same(&self, other: &Duration)
        requires
            self.as_secs() == other.as_secs(),
            self.subsec_nanos() == other.subsec_nanos(),
        ensures
            self == other,
    {
    }

    /// The span of `secs` seconds and `nanos` nanoseconds. Whole seconds in
    /// `nanos` carry over; `None` if the seconds then exceed 64 bits.
    pub fn new(secs: u64, nanos: u32) -> (span: Option<Self>)
        ensures
            span matches Some(d) ==> d.wf() && d.as_secs() == secs + nanos / NANOS_PER_SEC
                && d.subsec_nanos() == nanos % NANOS_PER_SEC,
            span is None <==> secs + nanos / NANOS_PER_SEC > u64::MAX,
    {
        let carry: u64 = (nanos / NANOS_PER_SEC) as u64;
        if secs > u64::MAX - carry {
            None
        } else {
            Some(Duration { secs: secs + carry, nanos: nanos % NANOS_PER_SEC })
        }
    }

    /// The span of `micros` microseconds.
    #[verifier::when_used_as_spec(spec_from_micros)]
    pub fn from_micros(micros: u64) -> (span: Self)
        ensures
            span == Self::spec_from_micros(micros),
            span.wf(),
            span.is_micros(micros as int),
            span.spec_as_micros() == micros,
    {
        let secs: u64 = micros / MICROS_PER_SEC;
        let rest: u64 = micros % MICROS_PER_SEC;
        let nanos: u32 = (rest as u32) * NANOS_PER_MICRO;
        assert(nanos / NANOS_PER_MICRO == rest);
        Duration { secs, nanos }
    }

    #[verifier::when_used_as_spec(spec_as_secs)]
    pub fn as_secs(&self) -> (secs: u64)
        ensures
            secs == self.as_secs(),
    {
        self.secs
    }

    #[verifier::when_used_as_spec(spec_subsec_nanos)]
    pub fn subsec_nanos(&self) -> (nanos: u32)
        ensures
            nanos == self.subsec_nanos(),
    {
        self.nanos
    }

    /// The span in whole microseconds, rounded down.
    pub fn as_micros(&self) -> (micros: u128)
        ensures
            micros == self.spec_as_micros(),
    {
        let whole: u128 = self.secs as u128 * MICROS_PER_SEC as u128;
        assert(whole == self.secs * 1_000_000);
        whole + (self.nanos / NANOS_PER_MICRO) as u128
    }
}

/// A reading of the clock, in microseconds.
#[derive(Clone, Copy, Debug, PartialEq, Eq, PartialOrd, Ord, Hash, Structural)]
pub struct Instant(pub u64);

/// Microseconds from the reading `earlier` to the reading `later`; zero if
/// `earlier` is in fact the later of the two.
pub open spec fn micros_between(later: Instant, earlier: Instant) -> int {
    if later.0 >= earlier.0 {
        later.0 - earlier.0
    } else {
        0
    }
}

impl Instant {
    /// The span from `earlier` to this reading, to the microsecond; zero if
    /// `earlier` is in fact the later of the two.
    pub fn duration_since(&self, earlier: Instant) -> (span: Duration)
        ensures
            span == Duration::spec_from_micros(micros_between(*self, earlier) as u64),
            span.wf(),
            span.is_micros(micros_between(*self, earlier)),
            span.spec_as_micros() == micros_between(*self, earlier),
    {
        if self.0 >= earlier.0 {
            Duration::from_micros(self.0 - earlier.0)
        } else {
            Duration::from_micros(0)
        }
    }

    /// The reading `duration` later, if the clock can show it.
    pub fn checked_add(&self, duration: Duration) -> (later: Option<Self>)
        ensures
            later is Some <==> self.0 + duration.spec_as_micros() <= u64::MAX,
            later matches Some(t) ==> t.0 == self.0 + duration.spec_as_micros(),
    {
        let micros: u128 = duration.as_micros();
        if micros > u64::MAX as u128 {
            None
        } else {
            match self.0.checked_add(micros as u64) {
                Some(t) => Some(Instant(t)),
                None => None,
            }
        }
    }

    /// The reading `duration` earlier, if the clock can show it.
    pub fn checked_sub(&self, duration: Duration) -> (earlier: Option<Self>)
        ensures
            earlier is Some <==> duration.spec_as_micros() <= self.0,
            earlier matches Some(t) ==> t.0 == self.0 - duration.spec_as_micros(),
    {
        let micros: u128 = duration.as_micros();
        if micros > u64::MAX as u128 {
            None
        } else {
            match self.0.checked_sub(micros as u64) {
                Some(t) => Some(Instant(t)),
                None => None,
            }
        }
    }
}

impl core::ops::Add<Duration> for Instant {
    type Output = Instant;

    /// The reading `other` later.
    fn add(self, other: Duration) -> (later: Instant) {
        match self.checked_add(other) {
            Some(later) => later,
            None => self,
        }
    }
}

impl vstd::std_specs::ops::AddSpecImpl<Duration> for Instant {
    open spec fn obeys_add_spec() -> bool {
        true
    }

    /// The clock can show the later reading.
    open spec fn add_req(self, other: Duration) -> bool {
        self.0 + other.spec_as_micros() <= u64::MAX
    }

    open spec fn add_spec(self, other: Duration) -> Instant {
        Instant((self.0 + other.spec_as_micros()) as u64)
    }
}

impl core::ops::Sub<Duration> for Instant {
    type Output = Instant;

    /// The reading `other` earlier.
    fn sub(self, other: Duration) -> (earlier: Instant) {
        match self.checked_sub(other) {
            Some(earlier) => earlier,
            None => self,
        }
    }
}

impl vstd::std_specs::ops::SubSpecImpl<Duration> for Instant {
    open spec fn obeys_sub_spec() -> bool {
        true
    }

    /// The clock can show the earlier reading.
    open spec fn sub_req(self, other: Duration) -> bool {
        other.spec_as_micros() <= self.0
    }

    open spec fn sub_spec(self, other: Duration) -> Instant {
        Instant((self.0 - other.spec_as_micros()) as u64)
    }
}

impl core::ops::Sub<Instant> for Instant {
    type Output = Duration;

    /// The span from `other` to this reading.
    fn sub(self, other: Instant) -> (span: Duration) {
        self.duration_since(other)
    }
}

impl vstd::std_specs::ops::SubSpecImpl<Instant> for Instant {
    open spec fn obeys_sub_spec() -> bool {
        true
    }

    open spec fn sub_req(self, other: Instant) -> bool {
        true
    }

    /// The span between the two readings, to the microsecond; zero if
    /// `other` is the later of the two.
    open spec fn sub_spec(self, other: Instant) -> Duration {
        Duration::spec_from_micros(micros_between(self, other) as u64)
    }
}

impl core::ops::AddAssign<Duration> for Instant {
    /// Moves the reading `other` later.
    fn add_assign(&mut self, other: Duration)
        requires
            old(self).0 + other.spec_as_micros() <= u64::MAX,
        ensures
            final(self).0 == old(self).0 + other.spec_as_micros(),
    {
        *self = *self + other;
    }
}

impl core::ops::SubAssign<Duration> for Instant {
    /// Moves the reading `other` earlier.
    fn sub_assign(&mut self, other: Duration)
        requires
            other.spec_as_micros() <= old(self).0,
        ensures
            final(self).0 == old(self).0 - other.spec_as_micros(),
    {
        *self = *self - other;
    }
}

} // verus!
