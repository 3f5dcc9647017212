use prayer_times::method::NightPortion;
use prayer_times::{
    AdjustingMethod, CalculationMethod, JuristicMethod, MethodConfig, Settings, TimeID,
    TIMES_COUNT,
};

#[test]
fn defaults_are_mwl_shafii_midnight() {
    assert_eq!(CalculationMethod::default(), CalculationMethod::MWL);
    assert_eq!(JuristicMethod::default(), JuristicMethod::Shafii);
    assert_eq!(AdjustingMethod::default(), AdjustingMethod::MidNight);
}

#[test]
fn method_table_values() {
    assert_eq!(
        CalculationMethod::MWL.config(),
        MethodConfig {
            fajr_angle: 180,
            maghrib_is_minutes: true,
            maghrib_value: 0,
            isha_is_minutes: false,
            isha_value: 170,
        }
    );
    assert_eq!(
        CalculationMethod::Jafari.config(),
        MethodConfig {
            fajr_angle: 160,
            maghrib_is_minutes: false,
            maghrib_value: 40,
            isha_is_minutes: false,
            isha_value: 140,
        }
    );
    let makkah = CalculationMethod::Makkah.config();
    assert_eq!(makkah.fajr_angle, 190);
    assert!(makkah.isha_is_minutes);
    assert_eq!(makkah.isha_value, 900);
    let egypt = CalculationMethod::Egypt.config();
    assert_eq!((egypt.fajr_angle, egypt.isha_value), (195, 175));
    assert_eq!(CalculationMethod::Karachi.config().isha_value, 180);
    assert_eq!(CalculationMethod::ISNA.config().fajr_angle, 150);
    assert_eq!(CalculationMethod::Custom.config(), CalculationMethod::MWL.config());
}

#[test]
fn shadow_factor_per_juristic_method() {
    assert_eq!(JuristicMethod::Shafii.shadow_factor(), 1);
    assert_eq!(JuristicMethod::Hanafi.shadow_factor(), 2);
    let s = Settings::new(CalculationMethod::MWL, JuristicMethod::Hanafi, AdjustingMethod::MidNight);
    assert_eq!(s.asr_shadow_factor(), 2);
}

#[test]
fn night_portion_per_policy() {
    let p = |n, d| NightPortion { numerator: n, denominator: d };
    assert_eq!(AdjustingMethod::AngleBased.night_portion(180), p(180, 600));
    assert_eq!(AdjustingMethod::MidNight.night_portion(180), p(1, 2));
    assert_eq!(AdjustingMethod::OneSeventh.night_portion(180), p(1, 7));
    assert_eq!(AdjustingMethod::NoAdjustment.night_portion(180), p(0, 1));
}

#[test]
fn high_lat_portion_uses_reference_angles_for_minute_entries() {
    let p = |n, d| Some(NightPortion { numerator: n, denominator: d });
    let makkah =
        Settings::new(CalculationMethod::Makkah, JuristicMethod::Shafii, AdjustingMethod::AngleBased);
    assert_eq!(makkah.high_lat_portion(TimeID::Fajr), p(190, 600));
    assert_eq!(makkah.high_lat_portion(TimeID::Isha), p(180, 600));
    assert_eq!(makkah.high_lat_portion(TimeID::Maghrib), p(40, 600));
    assert_eq!(makkah.high_lat_portion(TimeID::Sunrise), None);
    let jafari =
        Settings::new(CalculationMethod::Jafari, JuristicMethod::Shafii, AdjustingMethod::AngleBased);
    assert_eq!(jafari.high_lat_portion(TimeID::Isha), p(140, 600));
    assert_eq!(jafari.high_lat_portion(TimeID::Maghrib), p(40, 600));
    let mwl =
        Settings::new(CalculationMethod::MWL, JuristicMethod::Shafii, AdjustingMethod::OneSeventh);
    assert_eq!(mwl.high_lat_portion(TimeID::Isha), p(1, 7));
    assert_eq!(mwl.high_lat_portion(TimeID::Dhuhr), None);
}

#[test]
fn no_adjustment_gives_no_fallback() {
    let s =
        Settings::new(CalculationMethod::MWL, JuristicMethod::Shafii, AdjustingMethod::NoAdjustment);
    for i in 0..TIMES_COUNT {
        assert_eq!(s.high_lat_portion(TimeID::from_index(i).unwrap()), None);
    }
}

#[test]
fn minute_offsets_per_method() {
    let makkah =
        Settings::new(CalculationMethod::Makkah, JuristicMethod::Shafii, AdjustingMethod::MidNight);
    assert_eq!(makkah.minute_offset(TimeID::Isha), Some(900));
    assert_eq!(makkah.minute_offset(TimeID::Maghrib), Some(0));
    assert_eq!(makkah.minute_offset(TimeID::Fajr), None);
    let jafari =
        Settings::new(CalculationMethod::Jafari, JuristicMethod::Shafii, AdjustingMethod::MidNight);
    assert_eq!(jafari.minute_offset(TimeID::Maghrib), None);
    assert_eq!(jafari.minute_offset(TimeID::Isha), None);
    let mwl = Settings::new(CalculationMethod::MWL, JuristicMethod::Shafii, AdjustingMethod::MidNight);
    assert_eq!(mwl.config(), CalculationMethod::MWL.config());
    assert_eq!(mwl.minute_offset(TimeID::Isha), None);
}

#[test]
fn time_ids_in_schedule_order() {
    let all = [
        TimeID::Fajr,
        TimeID::Sunrise,
        TimeID::Dhuhr,
        TimeID::Asr,
        TimeID::Sunset,
        TimeID::Maghrib,
        TimeID::Isha,
    ];
    assert_eq!(TIMES_COUNT, 7);
    for (i, t) in all.iter().enumerate() {
        assert_eq!(t.index(), i);
        assert_eq!(TimeID::from_index(i), Some(*t));
    }
    assert_eq!(TimeID::from_index(7), None);
}
