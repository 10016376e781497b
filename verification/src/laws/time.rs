//! Points in time.
use vstd::prelude::*;

use crate::time::is_clock_reading;
use crate::time::readable_duration;
use crate::time::rfc2822_text;
use crate::time::rfc3339_moment;
use crate::time::timeago_text;
use crate::time::utc_text;
use crate::time::DateTime;
use crate::time::Posix;

verus! {

/// The calendar goes from the year -262143 to the year 262142, and a second has its
/// nanoseconds, the last one of a minute twice as many. A moment gives back the
/// numbers that it was made from.
pub proof fn law_moment_keeps_its_numbers(
    seconds: i64,
    nanos: u32,
    moment: Option<DateTime>,
    timestamp: i64,
    subsec: u32,
)
    requires
        call_ensures(DateTime::from_timestamp, (seconds, nanos), moment),
        moment matches Some(m) ==> call_ensures(DateTime::timestamp, (&m,), timestamp),
        moment matches Some(m) ==> call_ensures(DateTime::timestamp_subsec_nanos, (&m,), subsec),
    ensures
        moment is Some <==> {
            &&& -8_334_601_228_800 <= seconds <= 8_210_266_876_799
            &&& nanos < 1_000_000_000 || (nanos < 2_000_000_000 && (seconds as int) % 60 == 59)
        },
        moment is Some ==> timestamp == seconds && subsec == nanos,
{
}

/// A second of the wire protocol is that second of the calendar, if the calendar
/// reaches it.
pub proof fn law_posix_second_is_that_moment(
    seconds: u64,
    time: Posix,
    moment: Option<DateTime>,
    timestamp: i64,
    subsec: u32,
)
    requires
        call_ensures(Posix::from_seconds, (seconds,), time),
        call_ensures(Posix::datetime, (&time,), moment),
        moment matches Some(m) ==> call_ensures(DateTime::timestamp, (&m,), timestamp),
        moment matches Some(m) ==> call_ensures(DateTime::timestamp_subsec_nanos, (&m,), subsec),
    ensures
        moment is Some <==> seconds <= 8_210_266_876_799,
        moment is Some ==> timestamp == seconds && subsec == 0,
{
}

/// The same holds of a time with nanoseconds.
pub proof fn law_posix_time_is_that_moment(
    time: Posix,
    moment: Option<DateTime>,
    same: Option<DateTime>,
)
    requires
        time.seconds <= i64::MAX,
        call_ensures(Posix::datetime, (&time,), moment),
        call_ensures(DateTime::from_timestamp, (time.seconds as i64, time.nanos), same),
    ensures
        moment is Some <==> same is Some,
        moment matches Some(m) ==> m@ == (same->0)@,
{
}

/// What is written of a moment are its seconds and nanoseconds, and nothing else.
pub proof fn law_moment_is_written_by_its_numbers(
    moment: &DateTime,
    timestamp: i64,
    subsec: u32,
    display: String,
    mail_date: String,
)
    requires
        call_ensures(DateTime::timestamp, (moment,), timestamp),
        call_ensures(DateTime::timestamp_subsec_nanos, (moment,), subsec),
        call_ensures(DateTime::display, (moment,), display),
        call_ensures(DateTime::to_rfc2822, (moment,), mail_date),
        -62_167_219_200 <= timestamp <= 253_402_300_799,
    ensures
        display@ == utc_text(timestamp, subsec),
        mail_date@ == rfc2822_text(timestamp, subsec),
{
}

/// A timestamp that can be read gives the very moment that is read, and one that
/// cannot gives none.
pub proof fn law_timestamp_is_the_moment_read(
    text: &str,
    moment: Option<DateTime>,
    timestamp: i64,
    subsec: u32,
)
    requires
        call_ensures(DateTime::parse_from_rfc3339, (text,), moment),
        moment matches Some(m) ==> call_ensures(DateTime::timestamp, (&m,), timestamp),
        moment matches Some(m) ==> call_ensures(DateTime::timestamp_subsec_nanos, (&m,), subsec),
    ensures
        rfc3339_moment(text@) == (match moment {
            Some(_) => Some((timestamp, subsec)),
            None => None,
        }),
{
}

/// A duration is written in words with nothing behind them.
pub proof fn law_duration_has_no_suffix(seconds: u64, text: String)
    requires
        call_ensures(readable_duration, (seconds,), text),
    ensures
        text@ == timeago_text(seq![], seconds),
{
    reveal_strlit("");
    assert(""@ =~= seq![]);
}

/// Both kinds of present time are read from the clock.
pub proof fn law_present_is_read_from_the_clock(
    moment: DateTime,
    timestamp: i64,
    subsec: u32,
    time: Posix,
)
    requires
        call_ensures(DateTime::now, (), moment),
        call_ensures(DateTime::timestamp, (&moment,), timestamp),
        call_ensures(DateTime::timestamp_subsec_nanos, (&moment,), subsec),
        call_ensures(Posix::now, (), time),
    ensures
        is_clock_reading((timestamp, subsec)),
        timestamp >= 0,
        is_clock_reading((time.seconds as i64, time.nanos)),
        time.seconds <= i64::MAX,
{
}

} // verus!
