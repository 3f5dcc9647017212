use vstd::prelude::*;

verus! {

/// The number of times in a day's schedule.
pub const TIMES_COUNT: usize = 7;

/// One of the seven times of a day, in the order in which a schedule holds
/// them.
#[derive(Clone, Copy, Debug, PartialEq, Eq, Structural, Hash)]
pub enum TimeID {
    Fajr,
    Sunrise,
    Dhuhr,
    Asr,
    Sunset,
    Maghrib,
    Isha,
}

/// The position of `t` in a schedule.
pub open spec fn spec_index(t: TimeID) -> nat {
    match t {
        TimeID::Fajr => 0,
        TimeID::Sunrise => 1,
        TimeID::Dhuhr => 2,
        TimeID::Asr => 3,
        TimeID::Sunset => 4,
        TimeID::Maghrib => 5,
        TimeID::Isha => 6,
    }
}

impl TimeID {
    /// The position of this time in a schedule.
    pub fn index(self) -> (r: usize)
        ensures
            r == spec_index(self),
            r < TIMES_COUNT,
    {
        match self {
            TimeID::Fajr => 0,
            TimeID::Sunrise => 1,
            TimeID::Dhuhr => 2,
            TimeID::Asr => 3,
            TimeID::Sunset => 4,
            TimeID::Maghrib => 5,
            TimeID::Isha => 6,
        }
    }

    /// The time at position `i` of a schedule, if there is one.
    pub fn from_index(i: usize) -> (r: Option<TimeID>)
        ensures
            i < TIMES_COUNT <==> r.is_some(),
            r matches Some(t) ==> spec_index(t) == i,
    {
        match i {
            0 => Some(TimeID::Fajr),
            1 => Some(TimeID::Sunrise),
            2 => Some(TimeID::Dhuhr),
            3 => Some(TimeID::Asr),
            4 => Some(TimeID::Sunset),
            5 => Some(TimeID::Maghrib),
            6 => Some(TimeID::Isha),
            _ => None,
        }
    }
}

} // verus!
