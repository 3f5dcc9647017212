use vstd::prelude::*;

use crate::method::{
    spec_method_config, spec_night_portion, AdjustingMethod, CalculationMethod, JuristicMethod,
    MethodConfig, NightPortion,
};
use crate::times::TimeID;

verus! {

/// The angle, in tenths of a degree, that sizes the high-latitude fallback
/// of `t` under `config`: the Fajr angle for Fajr, and for Isha and Maghrib
/// their own angle, or 18 and 4 degrees where they are minute offsets.
/// The other times have no fallback.
pub open spec fn spec_fallback_angle(config: MethodConfig, t: TimeID) -> Option<u32> {
    match t {
        TimeID::Fajr => Some(config.fajr_angle),
        TimeID::Isha => Some(if config.isha_is_minutes { 180u32 } else { config.isha_value }),
        TimeID::Maghrib => Some(
            if config.maghrib_is_minutes { 40u32 } else { config.maghrib_value },
        ),
        _ => None,
    }
}

/// The fixed offset of `t` under `config`, in tenths of a minute: Maghrib
/// after sunset and Isha after Maghrib, where the method gives them as
/// minutes. The other times are solved from an angle.
pub open spec fn spec_minute_offset(config: MethodConfig, t: TimeID) -> Option<u32> {
    match t {
        TimeID::Maghrib => if config.maghrib_is_minutes {
            Some(config.maghrib_value)
        } else {
            None
        },
        TimeID::Isha => if config.isha_is_minutes {
            Some(config.isha_value)
        } else {
            None
        },
        _ => None,
    }
}

/// The conventions that a prayer-time computation is made under. They are
/// fixed when the settings are made.
#[derive(Clone, Copy, Debug, PartialEq, Eq, Structural, Hash)]
pub struct Settings {
    pub calc_method: CalculationMethod,
    pub asr_juristic: JuristicMethod,
    pub adjust_high_lats: AdjustingMethod,
}

impl Settings {
    pub fn new(
        calc_method: CalculationMethod,
        asr_juristic: JuristicMethod,
        adjust_high_lats: AdjustingMethod,
    ) -> (r: Settings)
        ensures
            r.calc_method == calc_method,
            r.asr_juristic == asr_juristic,
            r.adjust_high_lats == adjust_high_lats,
    {
        Settings { calc_method, asr_juristic, adjust_high_lats }
    }

    /// The angles and offsets of the chosen method.
    pub fn config(&self) -> (r: MethodConfig)
        ensures
            r == spec_method_config(self.calc_method),
    {
        self.calc_method.config()
    }

    /// The shadow-length multiplier of Asr under the chosen convention.
    pub fn asr_shadow_factor(&self) -> (r: u32)
        ensures
            r == (if self.asr_juristic == JuristicMethod::Shafii { 1u32 } else { 2u32 }),
    {
        self.asr_juristic.shadow_factor()
    }

    /// The fixed offset of `t`, in tenths of a minute, where the chosen
    /// method gives `t` as minutes rather than as an angle.
    pub fn minute_offset(&self, t: TimeID) -> (r: Option<u32>)
        ensures
            r == spec_minute_offset(spec_method_config(self.calc_method), t),
    {
        let config = self.config();
        match t {
            TimeID::Maghrib => if config.maghrib_is_minutes {
                Some(config.maghrib_value)
            } else {
                None
            },
            TimeID::Isha => if config.isha_is_minutes {
                Some(config.isha_value)
            } else {
                None
            },
            _ => None,
        }
    }

    /// The part of the night that bounds `t` at high latitudes.
    pub open spec fn spec_high_lat_portion(self, t: TimeID) -> Option<NightPortion> {
        if self.adjust_high_lats == AdjustingMethod::NoAdjustment {
            None
        } else {
            match spec_fallback_angle(spec_method_config(self.calc_method), t) {
                Some(angle) => Some(spec_night_portion(self.adjust_high_lats, angle)),
                None => None,
            }
        }
    }

    /// The part of the night that bounds `t` at high latitudes: `None` when
    /// no adjustment is chosen or when `t` is not one of Fajr, Maghrib and
    /// Isha.
    pub fn high_lat_portion(&self, t: TimeID) -> (r: Option<NightPortion>)
        ensures
            r == self.spec_high_lat_portion(t),
    {
        if self.adjust_high_lats == AdjustingMethod::NoAdjustment {
            return None;
        }
        let config = self.config();
        let angle = match t {
            TimeID::Fajr => config.fajr_angle,
            TimeID::Isha => if config.isha_is_minutes {
                180
            } else {
                config.isha_value
            },
            TimeID::Maghrib => if config.maghrib_is_minutes {
                40
            } else {
                config.maghrib_value
            },
            _ => {
                return None;
            },
        };
        Some(self.adjust_high_lats.night_portion(angle))
    }
}

/// Whenever a high-latitude policy is chosen, each of Fajr, Maghrib and Isha
/// has a fallback: a part of the night with a nonzero denominator, so that
/// an undefined solved time can always be replaced. Sunrise, Dhuhr, Asr and
/// Sunset never have one.
pub proof fn lemma_night_prayers_have_fallback(settings: Settings, t: TimeID)
    ensures
        settings.adjust_high_lats != AdjustingMethod::NoAdjustment && (t == TimeID::Fajr
            || t == TimeID::Maghrib || t == TimeID::Isha) ==> (settings.spec_high_lat_portion(t)
            matches Some(p) && p.denominator > 0),
        (t == TimeID::Sunrise || t == TimeID::Dhuhr || t == TimeID::Asr || t == TimeID::Sunset)
            ==> settings.spec_high_lat_portion(t) is None,
{
}

} // verus!
