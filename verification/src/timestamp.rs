//! The time of day at which an artifact is made, as text.

use crate::percent::is_digit;
use vstd::prelude::*;

verus! {

/// The shape of a timestamp: the year, then two digits each for the month
/// and the day, an underscore, and two digits each for the hour, the minute
/// and the second. The year has four digits; a year before 0 or after 9999
/// has a sign and as many digits as it takes.
pub open spec fn is_timestamp(t: Seq<char>) -> bool {
    let year_end = t.len() - 11;
    &&& t.len() >= 15
    &&& (is_digit(t[0]) || t[0] == '+' || t[0] == '-')
    &&& forall|i: int| 1 <= i < year_end + 4 ==> is_digit(#[trigger] t[i])
    &&& t[year_end + 4] == '_'
    &&& forall|i: int| year_end + 5 <= i < t.len() ==> is_digit(#[trigger] t[i])
}

/// The first second of 1970 has the shape of a timestamp.
pub proof fn lemma_epoch_is_timestamp()
    ensures
        is_timestamp("19700101_000000"@),
{
    reveal_strlit("19700101_000000");
}

/// The local time of the system clock, to the second, as `YYYYMMDD_HHMMSS`.
///
/// Reads the clock with `std::time::SystemTime::now` and has chrono show
/// that moment in the local time zone: `DateTime::<Local>::from` and
/// `DateTime::format` with `%Y%m%d_%H%M%S`. Nothing is proved of it. The
/// result changes with the clock and the time zone, so the contract claims
/// only its shape, as chrono documents `%Y`, `%m`, `%d`, `%H`, `%M` and `%S`.
/// It takes a clock that stands within the years that chrono can show.
#[verifier::external_body]
pub fn get_timestamp() -> (r: String)
    ensures
        is_timestamp(r@),
{
    let now = std::time::SystemTime::now();
    chrono::DateTime::<chrono::Local>::from(now).format("%Y%m%d_%H%M%S").to_string()
}

} // verus!
