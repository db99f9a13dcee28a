//! The wall clock, read through chrono.
use vstd::prelude::*;
use crate::models::{Date, Timestamp};

verus! {

/// Relies on chrono's `Local::now` with the `Datelike` and `Timelike`
/// accessors: the local wall-clock time, whose month is 1 to 12, day
/// 1 to 31, and second of the day below 86400, as chrono documents.
/// Nothing else can be promised of a clock reading.
#[verifier::external_body]
pub(crate) fn now_local() -> (t: Timestamp)
    ensures
        t.wf(),
{
    let now = chrono::Local::now().naive_local();
    let d = now.date();
    let date = Date {
        year: chrono::Datelike::year(&d),
        month: chrono::Datelike::month(&d),
        day: chrono::Datelike::day(&d),
    };
    Timestamp { date, secs: chrono::Timelike::num_seconds_from_midnight(&now.time()) }
}

} // verus!
