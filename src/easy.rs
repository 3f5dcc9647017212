use vstd::prelude::*;

use crate::clock::{spec_time24_text, time24_text};

verus! {

/// A day's seven times as `HH:MM` text (or `-----` where undefined).
#[derive(Debug, PartialEq, Eq)]
pub struct EasyTimes24 {
    pub fajr: String,
    pub sunrise: String,
    pub dhuhr: String,
    pub asr: String,
    pub sunset: String,
    pub maghrib: String,
    pub isha: String,
}

impl EasyTimes24 {
    /// The texts of a schedule given as whole hours and minutes, in the
    /// order Fajr, Sunrise, Dhuhr, Asr, Sunset, Maghrib, Isha; `None` stands
    /// for an undefined time.
    pub fn from_parts(parts: [Option<(usize, usize)>; 7]) -> (r: EasyTimes24)
        ensures
            r.fajr@ == spec_time24_text(parts@[0]),
            r.sunrise@ == spec_time24_text(parts@[1]),
            r.dhuhr@ == spec_time24_text(parts@[2]),
            r.asr@ == spec_time24_text(parts@[3]),
            r.sunset@ == spec_time24_text(parts@[4]),
            r.maghrib@ == spec_time24_text(parts@[5]),
            r.isha@ == spec_time24_text(parts@[6]),
    {
        EasyTimes24 {
            fajr: time24_text(parts[0]),
            sunrise: time24_text(parts[1]),
            dhuhr: time24_text(parts[2]),
            asr: time24_text(parts[3]),
            sunset: time24_text(parts[4]),
            maghrib: time24_text(parts[5]),
            isha: time24_text(parts[6]),
        }
    }
}

} // verus!
