use vstd::prelude::*;

verus! {

/// `OffsetDateTime` of the time crate: a date and a time of day with an
/// offset from UTC. Nothing of what it holds is stated.
#[verifier::external_type_specification]
#[verifier::external_body]
pub struct ExOffsetDateTime(time::OffsetDateTime);

/// How many nanoseconds a second has.
pub const NANOSECONDS_PER_SECOND: i128 = 1_000_000_000;

/// A point on a clock that only moves forward: the nanoseconds that the
/// clock has counted.
#[derive(Clone, Copy, Debug, PartialEq, Eq, PartialOrd, Ord, Hash, Structural)]
pub struct Instant {
    nanoseconds: i128,
}

impl View for Instant {
    type V = int;

    closed spec fn view(&self) -> int {
        self.nanoseconds as int
    }
}

impl Instant {
    /// No instant lies further from the start of the clock than the largest
    /// reading of seconds and nanoseconds does.
    #[verifier::type_invariant]
    pub closed spec fn wf(self) -> bool {
        -0x8000_0000_0000_0000 * NANOSECONDS_PER_SECOND - 0x8000_0000 <= self.nanoseconds
            <= 0x7FFF_FFFF_FFFF_FFFF * NANOSECONDS_PER_SECOND + 0x7FFF_FFFF
    }

    /// The instant at which the clock reads `seconds` whole seconds and
    /// `nanoseconds` nanoseconds; the two are added up, whatever their
    /// signs.
    pub fn now(seconds: i64, nanoseconds: i32) -> (r: Instant)
        ensures
            r@ == seconds * NANOSECONDS_PER_SECOND + nanoseconds,
    {
        Instant { nanoseconds: seconds as i128 * NANOSECONDS_PER_SECOND + nanoseconds as i128 }
    }

    /// The nanoseconds that the clock has counted at this instant.
    pub fn whole_nanoseconds(&self) -> (r: i128)
        ensures
            r == self@,
    {
        self.nanoseconds
    }

    /// The nanoseconds from `earlier` to this instant; negative where
    /// `earlier` is the later one.
    pub fn sub(self, earlier: Instant) -> (r: i128)
        ensures
            r == self@ - earlier@,
    {
        proof {
            use_type_invariant(&self);
            use_type_invariant(&earlier);
        }
        self.nanoseconds - earlier.nanoseconds
    }
}

/// The date and time in the time zone of the user. The platform knows no
/// time zone: the date and time is handed back as it is.
pub fn to_local(date_time: time::OffsetDateTime) -> (r: time::OffsetDateTime)
    ensures
        r == date_time,
{
    date_time
}

} // verus!
