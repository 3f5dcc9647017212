//! Prayer-time conventions and the exact, integer-valued parts of the
//! prayer-time computation: the calculation-method table, the high-latitude
//! policy, the Julian day of a Gregorian date and the `HH:MM` text form.
pub mod clock;
pub mod easy;
pub mod julian;
pub mod method;
pub mod settings;
pub mod times;

pub use clock::{parse_time24, time24_text, INVALID_TIME};
pub use easy::EasyTimes24;
pub use julian::julian_half_days;
pub use method::{AdjustingMethod, CalculationMethod, JuristicMethod, MethodConfig, NightPortion};
pub use settings::Settings;
pub use times::{TimeID, TIMES_COUNT};
