//! Points in time: the seconds of the wire protocol, and moments of the UTC
//! calendar as the `chrono` crate reads and writes them.
use vstd::prelude::*;

verus! {

/// Midnight before January 1st of the year -262143, the first day of the
/// calendar of `chrono`, in seconds from the start of 1970.
pub const FIRST_SECOND: i64 = -8_334_601_228_800;

/// The last second of the year 262142, the last one of that calendar.
pub const LAST_SECOND: i64 = 8_210_266_876_799;

/// The first second of the year 0.
pub const FIRST_MAIL_SECOND: i64 = -62_167_219_200;

/// The last second of the year 9999.
pub const LAST_MAIL_SECOND: i64 = 253_402_300_799;

/// `seconds` from the start of 1970 and `nanos` after that is a moment of the
/// calendar. A leap second counts its nanoseconds from the second before it,
/// the last one of a minute.
pub open spec fn valid_moment(seconds: int, nanos: int) -> bool {
    &&& FIRST_SECOND <= seconds <= LAST_SECOND
    &&& 0 <= nanos < 2_000_000_000
    &&& nanos >= 1_000_000_000 ==> seconds % 60 == 59
}

/// The year of a moment has four digits, as the date of a mail header must.
pub open spec fn has_mail_date(seconds: int) -> bool {
    FIRST_MAIL_SECOND <= seconds <= LAST_MAIL_SECOND
}

/// How `chrono` displays a moment in UTC.
pub uninterp spec fn utc_text(seconds: i64, nanos: u32) -> Seq<char>;

/// How `chrono` writes a moment in UTC as the date of a mail header.
pub uninterp spec fn rfc2822_text(seconds: i64, nanos: u32) -> Seq<char>;

/// The moment that `chrono` reads from a timestamp, or nothing where the text
/// is none.
pub uninterp spec fn rfc3339_moment(text: Seq<char>) -> Option<(i64, u32)>;

/// How `timeago` puts a number of seconds into English words, followed by `ago`.
pub uninterp spec fn timeago_text(ago: Seq<char>, seconds: u64) -> Seq<char>;

/// Calls `chrono::DateTime::<Utc>::from_timestamp`: it gives a moment exactly
/// where the seconds lie in the calendar and the nanoseconds are fewer than a
/// second's, or than two seconds' at the end of a minute. The moment's
/// `timestamp` and `timestamp_subsec_nanos` are the two numbers handed in.
#[verifier::external_body]
fn from_timestamp(seconds: i64, nanos: u32) -> (moment: Option<(i64, u32)>)
    ensures
        moment == (if valid_moment(seconds as int, nanos as int) {
            Some((seconds, nanos))
        } else {
            None
        }),
{
    match chrono::DateTime::<chrono::Utc>::from_timestamp(seconds, nanos) {
        Some(moment) => Some((moment.timestamp(), moment.timestamp_subsec_nanos())),
        None => None,
    }
}

/// Calls `chrono::DateTime::parse_from_rfc3339` and `with_timezone`, which keeps
/// the moment: what they read depends on the text alone, and is a moment of the
/// calendar.
#[verifier::external_body]
fn parse_from_rfc3339(text: &str) -> (moment: Option<(i64, u32)>)
    ensures
        moment == rfc3339_moment(text@),
        moment matches Some(m) ==> valid_moment(m.0 as int, m.1 as int),
{
    match chrono::DateTime::parse_from_rfc3339(text) {
        Ok(parsed) => {
            let moment = parsed.with_timezone(&chrono::Utc);
            Some((moment.timestamp(), moment.timestamp_subsec_nanos()))
        }
        Err(_) => None,
    }
}

/// Calls `chrono::Utc::now`: some moment of the calendar, not before 1970 (with
/// the clock set to an earlier time the call does not return) and never within
/// a leap second. Which one it is, nothing says.
#[verifier::external_body]
fn utc_now() -> (moment: (i64, u32))
    ensures
        valid_moment(moment.0 as int, moment.1 as int),
        moment.0 >= 0,
        moment.1 < 1_000_000_000,
{
    let now = chrono::Utc::now();
    (now.timestamp(), now.timestamp_subsec_nanos())
}

/// `moment` is what a reading of the clock has given.
pub closed spec fn is_clock_reading(moment: (i64, u32)) -> bool {
    call_ensures(utc_now, (), moment)
}

/// Reads a clock once.
pub fn read_clock<T>(clock: impl FnOnce() -> T) -> (reading: T)
    requires
        call_requires(clock, ()),
    ensures
        call_ensures(clock, (), reading),
{
    clock()
}

/// Calls `to_string` on a `chrono::DateTime<Utc>`: the text depends on the
/// moment alone.
#[verifier::external_body]
fn display(seconds: i64, nanos: u32) -> (text: String)
    requires
        valid_moment(seconds as int, nanos as int),
    ensures
        text@ == utc_text(seconds, nanos),
{
    chrono::DateTime::<chrono::Utc>::from_timestamp(seconds, nanos).unwrap().to_string()
}

/// Calls `chrono::DateTime::<Utc>::to_rfc2822`, which panics unless the year
/// has four digits: the text depends on the moment alone.
#[verifier::external_body]
fn to_rfc2822(seconds: i64, nanos: u32) -> (text: String)
    requires
        valid_moment(seconds as int, nanos as int),
        has_mail_date(seconds as int),
    ensures
        text@ == rfc2822_text(seconds, nanos),
{
    chrono::DateTime::<chrono::Utc>::from_timestamp(seconds, nanos).unwrap().to_rfc2822()
}

/// Calls `timeago::Formatter::convert` on a formatter that `new` made and whose
/// suffix `ago` has set: the text depends on the suffix and the seconds alone.
#[verifier::external_body]
fn timeago_convert(ago: &'static str, seconds: u64) -> (text: String)
    ensures
        text@ == timeago_text(ago@, seconds),
{
    let mut formatter = timeago::Formatter::new();
    formatter.ago(ago);
    formatter.convert(std::time::Duration::from_secs(seconds))
}

/// How long `seconds` are, in words, without a word for "ago" after them.
pub fn readable_duration(seconds: u64) -> (text: String)
    ensures
        text@ == timeago_text(""@, seconds),
{
    timeago_convert("", seconds)
}

/// A moment of the UTC calendar.
#[derive(Debug, Clone, Copy, PartialEq, Eq)]
pub struct DateTime {
    seconds: i64,
    nanos: u32,
}

impl View for DateTime {
    type V = (i64, u32);

    /// Seconds from the start of 1970, and nanoseconds after that.
    closed spec fn view(&self) -> (i64, u32) {
        (self.seconds, self.nanos)
    }
}

impl DateTime {
    #[verifier::type_invariant]
    spec fn is_moment(self) -> bool {
        valid_moment(self.seconds as int, self.nanos as int)
    }

    /// The moment `seconds` from the start of 1970 and `nanos` after that, if
    /// the calendar has it.
    pub fn from_timestamp(seconds: i64, nanos: u32) -> (moment: Option<DateTime>)
        ensures
            moment is Some == valid_moment(seconds as int, nanos as int),
            moment matches Some(m) ==> m@ == (seconds, nanos),
    {
        match from_timestamp(seconds, nanos) {
            Some((seconds, nanos)) => Some(DateTime { seconds, nanos }),
            None => None,
        }
    }

    /// The moment that a timestamp such as `2023-05-01T12:00:00.250Z` names.
    pub fn parse_from_rfc3339(text: &str) -> (moment: Option<DateTime>)
        ensures
            moment is Some == rfc3339_moment(text@) is Some,
            moment matches Some(m) ==> rfc3339_moment(text@) == Some(m@),
            moment matches Some(m) ==> valid_moment(m@.0 as int, m@.1 as int),
    {
        match parse_from_rfc3339(text) {
            Some((seconds, nanos)) => Some(DateTime { seconds, nanos }),
            None => None,
        }
    }

    /// The present moment, as the clock gives it.
    pub fn now() -> (moment: DateTime)
        ensures
            is_clock_reading(moment@),
            valid_moment(moment@.0 as int, moment@.1 as int),
            moment@.0 >= 0,
            moment@.1 < 1_000_000_000,
    {
        let (seconds, nanos) = read_clock(utc_now);
        DateTime { seconds, nanos }
    }

    /// Seconds from the start of 1970.
    pub fn timestamp(&self) -> (seconds: i64)
        ensures
            seconds == self@.0,
    {
        self.seconds
    }

    /// Nanoseconds after the last full second.
    pub fn timestamp_subsec_nanos(&self) -> (nanos: u32)
        ensures
            nanos == self@.1,
    {
        self.nanos
    }

    /// The moment as text, such as `2001-09-09 01:46:40 UTC`.
    pub fn display(&self) -> (text: String)
        ensures
            text@ == utc_text(self@.0, self@.1),
    {
        proof {
            use_type_invariant(*self);
        }
        display(self.seconds, self.nanos)
    }

    /// The moment as text, such as `Sun, 9 Sep 2001 01:46:40 +0000`.
    pub fn to_rfc2822(&self) -> (text: String)
        requires
            has_mail_date(self@.0 as int),
        ensures
            text@ == rfc2822_text(self@.0, self@.1),
    {
        proof {
            use_type_invariant(*self);
        }
        to_rfc2822(self.seconds, self.nanos)
    }
}

/// A time as a count from the start of 1970: full seconds, and nanoseconds
/// after them.
#[derive(Debug, Clone, Copy, PartialEq, Eq, PartialOrd, Ord, Hash)]
pub struct Posix {
    pub seconds: u64,
    pub nanos: u32,
}

impl Posix {
    /// The present time, as the clock gives it.
    pub fn now() -> (time: Posix)
        ensures
            is_clock_reading((time.seconds as i64, time.nanos)),
            valid_moment(time.seconds as int, time.nanos as int),
            time.nanos < 1_000_000_000,
    {
        let (seconds, nanos) = read_clock(utc_now);
        Posix { seconds: seconds as u64, nanos }
    }

    pub fn from_seconds(seconds: u64) -> (time: Posix)
        ensures
            time == (Posix { seconds, nanos: 0 }),
    {
        Posix { seconds, nanos: 0 }
    }

    /// The moment of the calendar at this time, if the calendar reaches it.
    pub fn datetime(&self) -> (moment: Option<DateTime>)
        ensures
            moment is Some == valid_moment(self.seconds as int, self.nanos as int),
            moment matches Some(m) ==> m@ == (self.seconds as i64, self.nanos),
    {
        if self.seconds > i64::MAX as u64 {
            None
        } else {
            DateTime::from_timestamp(self.seconds as i64, self.nanos)
        }
    }
}

} // verus!
