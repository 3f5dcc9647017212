use vstd::prelude::*;

verus! {

/// A named convention for the twilight angles of Fajr, Maghrib and Isha.
#[derive(Clone, Copy, Debug, PartialEq, Eq, Structural, Hash)]
pub enum CalculationMethod {
    /// Ithna Ashari.
    Jafari,
    /// University of Islamic Sciences, Karachi.
    Karachi,
    /// Islamic Society of North America.
    ISNA,
    /// Muslim World League.
    MWL,
    /// Umm al-Qura, Makkah.
    Makkah,
    /// Egyptian General Authority of Survey.
    Egypt,
    /// Custom setting.
    Custom,
}

impl Default for CalculationMethod {
    fn default() -> (r: Self)
        ensures
            r == CalculationMethod::MWL,
    {
        CalculationMethod::MWL
    }
}

/// The angles and offsets of one calculation method.
///
/// Angles are in tenths of a degree and offsets in tenths of a minute, so
/// that every value of the table is held exactly.
#[derive(Clone, Copy, Debug, PartialEq, Eq, Structural, Hash)]
pub struct MethodConfig {
    /// Depression of the sun at Fajr, in tenths of a degree.
    pub fajr_angle: u32,
    /// Whether Maghrib is an offset after sunset rather than an angle.
    pub maghrib_is_minutes: bool,
    /// The Maghrib angle (tenths of a degree) or offset (tenths of a minute).
    pub maghrib_value: u32,
    /// Whether Isha is an offset after Maghrib rather than an angle.
    pub isha_is_minutes: bool,
    /// The Isha angle (tenths of a degree) or offset (tenths of a minute).
    pub isha_value: u32,
}

/// The configuration that `method` stands for.
pub open spec fn spec_method_config(method: CalculationMethod) -> MethodConfig {
    match method {
        CalculationMethod::Jafari => MethodConfig {
            fajr_angle: 160,
            maghrib_is_minutes: false,
            maghrib_value: 40,
            isha_is_minutes: false,
            isha_value: 140,
        },
        CalculationMethod::Karachi => MethodConfig {
            fajr_angle: 180,
            maghrib_is_minutes: true,
            maghrib_value: 0,
            isha_is_minutes: false,
            isha_value: 180,
        },
        CalculationMethod::ISNA => MethodConfig {
            fajr_angle: 150,
            maghrib_is_minutes: true,
            maghrib_value: 0,
            isha_is_minutes: false,
            isha_value: 150,
        },
        CalculationMethod::MWL => MethodConfig {
            fajr_angle: 180,
            maghrib_is_minutes: true,
            maghrib_value: 0,
            isha_is_minutes: false,
            isha_value: 170,
        },
        CalculationMethod::Makkah => MethodConfig {
            fajr_angle: 190,
            maghrib_is_minutes: true,
            maghrib_value: 0,
            isha_is_minutes: true,
            isha_value: 900,
        },
        CalculationMethod::Egypt => MethodConfig {
            fajr_angle: 195,
            maghrib_is_minutes: true,
            maghrib_value: 0,
            isha_is_minutes: false,
            isha_value: 175,
        },
        CalculationMethod::Custom => MethodConfig {
            fajr_angle: 180,
            maghrib_is_minutes: true,
            maghrib_value: 0,
            isha_is_minutes: false,
            isha_value: 170,
        },
    }
}

impl CalculationMethod {
    /// The angles and offsets of this method.
    pub fn config(self) -> (r: MethodConfig)
        ensures
            r == spec_method_config(self),
    {
        match self {
            CalculationMethod::Jafari => MethodConfig {
                fajr_angle: 160,
                maghrib_is_minutes: false,
                maghrib_value: 40,
                isha_is_minutes: false,
                isha_value: 140,
            },
            CalculationMethod::Karachi => MethodConfig {
                fajr_angle: 180,
                maghrib_is_minutes: true,
                maghrib_value: 0,
                isha_is_minutes: false,
                isha_value: 180,
            },
            CalculationMethod::ISNA => MethodConfig {
                fajr_angle: 150,
                maghrib_is_minutes: true,
                maghrib_value: 0,
                isha_is_minutes: false,
                isha_value: 150,
            },
            CalculationMethod::MWL => MethodConfig {
                fajr_angle: 180,
                maghrib_is_minutes: true,
                maghrib_value: 0,
                isha_is_minutes: false,
                isha_value: 170,
            },
            CalculationMethod::Makkah => MethodConfig {
                fajr_angle: 190,
                maghrib_is_minutes: true,
                maghrib_value: 0,
                isha_is_minutes: true,
                isha_value: 900,
            },
            CalculationMethod::Egypt => MethodConfig {
                fajr_angle: 195,
                maghrib_is_minutes: true,
                maghrib_value: 0,
                isha_is_minutes: false,
                isha_value: 175,
            },
            CalculationMethod::Custom => MethodConfig {
                fajr_angle: 180,
                maghrib_is_minutes: true,
                maghrib_value: 0,
                isha_is_minutes: false,
                isha_value: 170,
            },
        }
    }
}

/// The doctrinal convention that fixes the shadow length defining Asr.
#[derive(Clone, Copy, Debug, PartialEq, Eq, Structural, Hash)]
pub enum JuristicMethod {
    /// Shafii (standard): Asr when a shadow equals its object's length.
    Shafii,
    /// Hanafi: Asr when a shadow is twice its object's length.
    Hanafi,
}

impl Default for JuristicMethod {
    fn default() -> (r: Self)
        ensures
            r == JuristicMethod::Shafii,
    {
        JuristicMethod::Shafii
    }
}

impl JuristicMethod {
    /// The shadow-length multiplier of the Asr solve.
    pub fn shadow_factor(self) -> (r: u32)
        ensures
            r == (match self {
                JuristicMethod::Shafii => 1u32,
                JuristicMethod::Hanafi => 2u32,
            }),
    {
        match self {
            JuristicMethod::Shafii => 1,
            JuristicMethod::Hanafi => 2,
        }
    }
}

/// The fallback policy for Fajr, Maghrib and Isha at high latitudes.
#[derive(Clone, Copy, Debug, PartialEq, Eq, Structural, Hash)]
pub enum AdjustingMethod {
    /// No adjustment.
    NoAdjustment,
    /// Half of the night.
    MidNight,
    /// One seventh of the night.
    OneSeventh,
    /// The twilight angle divided by sixty, as a part of the night.
    AngleBased,
}

impl Default for AdjustingMethod {
    fn default() -> (r: Self)
        ensures
            r == AdjustingMethod::MidNight,
    {
        AdjustingMethod::MidNight
    }
}

/// A part of the night, `numerator / denominator` of the time from sunset
/// to sunrise.
#[derive(Clone, Copy, Debug, PartialEq, Eq, Structural, Hash)]
pub struct NightPortion {
    pub numerator: u32,
    pub denominator: u32,
}

/// The part of the night that `adjusting` grants a time whose twilight
/// angle is `angle` tenths of a degree.
pub open spec fn spec_night_portion(adjusting: AdjustingMethod, angle: u32) -> NightPortion {
    match adjusting {
        AdjustingMethod::AngleBased => NightPortion { numerator: angle, denominator: 600 },
        AdjustingMethod::MidNight => NightPortion { numerator: 1, denominator: 2 },
        AdjustingMethod::OneSeventh => NightPortion { numerator: 1, denominator: 7 },
        AdjustingMethod::NoAdjustment => NightPortion { numerator: 0, denominator: 1 },
    }
}

impl AdjustingMethod {
    /// The part of the night that bounds a time whose twilight angle is
    /// `angle` tenths of a degree: `angle / 600` for `AngleBased` (the angle
    /// in degrees over sixty), one half for `MidNight`, one seventh for
    /// `OneSeventh`, and nothing for `NoAdjustment`.
    pub fn night_portion(self, angle: u32) -> (r: NightPortion)
        ensures
            r == spec_night_portion(self, angle),
            r.denominator > 0,
    {
        match self {
            AdjustingMethod::AngleBased => NightPortion { numerator: angle, denominator: 600 },
            AdjustingMethod::MidNight => NightPortion { numerator: 1, denominator: 2 },
            AdjustingMethod::OneSeventh => NightPortion { numerator: 1, denominator: 7 },
            AdjustingMethod::NoAdjustment => NightPortion { numerator: 0, denominator: 1 },
        }
    }
}

} // verus!
