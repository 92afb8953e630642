//! Current-time service: the nine-byte wire form of a date and time, and the
//! client's decision to rewrite a peer clock that is too far off.
use vstd::prelude::*;
use vstd::arithmetic::div_mod::{
    lemma_div_is_ordered_by_denominator, lemma_div_pos_is_pos, lemma_fundamental_div_mod,
    lemma_fundamental_div_mod_converse, lemma_mod_multiples_vanish,
};

verus! {

/// Minutes of skew beyond which the client rewrites the peer's clock.
pub const DIFF_IN_MINUTES_TO_FORCE_SYNC: i64 = 10;

/// A date and time of day, read field by field (UTC, no leap second).
#[derive(Clone, Copy, Debug, PartialEq, Eq, Structural)]
pub struct DateTimeFields {
    pub year: u16,
    pub month: u8,
    pub day: u8,
    pub hour: u8,
    pub minute: u8,
    pub second: u8,
}

/// A date and time with its day of the week (Monday is 1, Sunday 7).
#[derive(Clone, Copy, Debug, PartialEq, Eq, Structural)]
pub struct CalendarTime {
    pub date_time: DateTimeFields,
    pub weekday: u8,
}

/// Day of the week of a date, Monday being 1 and Sunday 7 (1970-01-01 was a
/// Thursday).
pub open spec fn weekday_of(f: DateTimeFields) -> int {
    (days_from_civil(f.year as int, f.month as int, f.day as int) + 3) % 7 + 1
}

impl CalendarTime {
    /// The weekday is the one of the date.
    pub open spec fn wf(&self) -> bool {
        self.weekday as int == weekday_of(self.date_time)
    }

    /// The date and time with its day of the week; none when the fields do
    /// not name a real day and time.
    pub fn from_fields(fields: DateTimeFields) -> (r: Option<CalendarTime>)
        ensures
            r is None <==> !valid_fields(fields),
            r matches Some(c) ==> c.wf() && c.date_time == fields,
    {
        let v = match ValidTime::from_fields(fields) {
            Some(v) => v,
            None => return None,
        };
        proof {
            lemma_days_lower_bound(fields);
        }
        let ghost days = days_from_civil(fields.year as int, fields.month as int, fields.day as int);
        let ghost secs = fields.hour as int * 3600 + fields.minute as int * 60 + fields.second as int;
        let shifted: u128 = (v.timestamp as i128 + WEEK_SHIFT_SECONDS as i128) as u128;
        let day: u128 = shifted / 86400;
        let weekday: u8 = ((day + 3) % 7 + 1) as u8;
        proof {
            assert(shifted as int == (days + 7 * WEEK_SHIFT_WEEKS as int) * 86400 + secs);
            lemma_fundamental_div_mod_converse(shifted as int, 86400, days + 7 * WEEK_SHIFT_WEEKS as int, secs);
            assert(day + 3 == 7 * WEEK_SHIFT_WEEKS as int + (days + 3));
            lemma_mod_multiples_vanish(WEEK_SHIFT_WEEKS as int, days + 3, 7);
        }
        Some(CalendarTime { date_time: fields, weekday })
    }
}

/// Whole weeks added to a timestamp so that every year from 0 on gives a
/// non-negative value.
const WEEK_SHIFT_WEEKS: i64 = 130000;

/// [`WEEK_SHIFT_WEEKS`] in seconds.
const WEEK_SHIFT_SECONDS: i64 = 78624000000;

/// From year 0 on, a valid date lies no more than 865565 days before
/// 1970-01-01.
proof fn lemma_days_lower_bound(f: DateTimeFields)
    requires
        valid_fields(f),
    ensures
        days_from_civil(f.year as int, f.month as int, f.day as int) >= -865565,
{
    let y = f.year as int;
    let m = f.month as int;
    let d = f.day as int;
    let y1 = if m <= 2 { y - 1 } else { y };
    let era = y1 / 400;
    let yoe = y1 - era * 400;
    let mp = if m > 2 { m - 3 } else { m + 9 };
    lemma_fundamental_div_mod(y1, 400);
    assert(0 <= y1 % 400 < 400);
    assert(yoe == y1 % 400);
    assert(era >= -1);
    lemma_div_is_ordered_by_denominator(yoe, 4, 100);
    lemma_div_pos_is_pos(153 * mp + 2, 5);
    lemma_div_pos_is_pos(yoe, 100);
    assert(yoe * 365 + yoe / 4 - yoe / 100 + (153 * mp + 2) / 5 + d - 1 >= 0);
}

pub open spec fn is_leap_year(y: int) -> bool {
    (y % 4 == 0 && y % 100 != 0) || y % 400 == 0
}

pub open spec fn days_in_month(y: int, m: int) -> int {
    if m == 2 {
        if is_leap_year(y) { 29 } else { 28 }
    } else if m == 4 || m == 6 || m == 9 || m == 11 {
        30
    } else {
        31
    }
}

/// The fields name a real calendar day and a time of day.
pub open spec fn valid_fields(f: DateTimeFields) -> bool {
    &&& 1 <= f.month <= 12
    &&& 1 <= f.day <= days_in_month(f.year as int, f.month as int)
    &&& f.hour < 24
    &&& f.minute < 60
    &&& f.second < 60
}

/// Days from 1970-01-01 to the given day of the proleptic Gregorian calendar.
pub open spec fn days_from_civil(y: int, m: int, d: int) -> int {
    let y1 = if m <= 2 { y - 1 } else { y };
    let era = y1 / 400;
    let yoe = y1 - era * 400;
    let mp = if m > 2 { m - 3 } else { m + 9 };
    let doy = (153 * mp + 2) / 5 + d - 1;
    let doe = yoe * 365 + yoe / 4 - yoe / 100 + doy;
    era * 146097 + doe - 719468
}

/// Seconds since 1970-01-01 00:00:00 UTC of valid fields, none otherwise.
pub open spec fn civil_timestamp(f: DateTimeFields) -> Option<int> {
    if valid_fields(f) {
        Some(
            days_from_civil(f.year as int, f.month as int, f.day as int) * 86400 + f.hour as int
                * 3600 + f.minute as int * 60 + f.second as int,
        )
    } else {
        None
    }
}

/// Relies on chrono's `NaiveDate::from_ymd_opt` (none for a day that does not
/// exist), `NaiveDate::and_hms_opt` (none for an hour, minute or second out of
/// range) and `DateTime::timestamp` (non-leap seconds since the Unix epoch).
#[verifier::external_body]
fn utc_timestamp(f: &DateTimeFields) -> (r: Option<i64>)
    ensures
        r matches Some(t) ==> civil_timestamp(*f) == Some(t as int),
        r is None ==> civil_timestamp(*f) is None,
{
    chrono::NaiveDate::from_ymd_opt(f.year as i32, f.month as u32, f.day as u32)
        .and_then(|d| d.and_hms_opt(f.hour as u32, f.minute as u32, f.second as u32))
        .map(|t| t.and_utc().timestamp())
}

/// Wire form of a date and time: year (low byte, high byte), month, day,
/// hour, minute, second, day of the week, and a zero byte.
pub open spec fn wire_time(t: CalendarTime) -> Seq<u8> {
    seq![
        (t.date_time.year % 256) as u8,
        (t.date_time.year / 256) as u8,
        t.date_time.month,
        t.date_time.day,
        t.date_time.hour,
        t.date_time.minute,
        t.date_time.second,
        t.weekday,
        0u8,
    ]
}

/// Encodes a date and time in its wire form.
pub fn date_time_to_vector(date_time: &CalendarTime) -> (r: Vec<u8>)
    requires
        date_time.wf(),
    ensures
        r@ == wire_time(*date_time),
{
    let y: u16 = date_time.date_time.year;
    let lo: u8 = (y & 0xffu16) as u8;
    let hi: u8 = (y >> 8u16) as u8;
    assert(lo as int == y as int % 256 && hi as int == y as int / 256) by (bit_vector)
        requires
            lo == (y & 0xffu16) as u8,
            hi == (y >> 8u16) as u8,
    ;
    let d = date_time.date_time;
    let r = vec![lo, hi, d.month, d.day, d.hour, d.minute, d.second, date_time.weekday, 0u8];
    assert(r@ =~= wire_time(*date_time));
    r
}

/// Fields that the first seven bytes of a wire-form time hold.
pub open spec fn wire_fields(b: Seq<u8>) -> DateTimeFields {
    DateTimeFields {
        year: (b[0] as int + b[1] as int * 256) as u16,
        month: b[2],
        day: b[3],
        hour: b[4],
        minute: b[5],
        second: b[6],
    }
}

/// A date and time whose fields are valid, with its Unix timestamp.
#[derive(Clone, Copy, Debug)]
pub struct ValidTime {
    pub fields: DateTimeFields,
    pub timestamp: i64,
}

impl ValidTime {
    pub open spec fn wf(&self) -> bool {
        civil_timestamp(self.fields) == Some(self.timestamp as int)
    }

    /// Checks the fields against the calendar; gives their timestamp when
    /// they name a real day and time.
    pub fn from_fields(fields: DateTimeFields) -> (r: Option<ValidTime>)
        ensures
            r matches Some(v) ==> v.wf() && v.fields == fields,
            r is None <==> !valid_fields(fields),
    {
        match utc_timestamp(&fields) {
            Some(timestamp) => Some(ValidTime { fields, timestamp }),
            None => None,
        }
    }
}

/// Decodes the date and time of a wire form; none when the bytes do not name
/// a real day and time.
pub fn vector_to_naive_date_time(time: &[u8]) -> (r: Option<ValidTime>)
    requires
        time@.len() >= 7,
    ensures
        r matches Some(v) ==> v.wf() && v.fields == wire_fields(time@),
        r is None <==> !valid_fields(wire_fields(time@)),
{
    let lo: u8 = time[0];
    let hi: u8 = time[1];
    let year: u16 = lo as u16 + (hi as u16) * 256;
    let fields = DateTimeFields {
        year,
        month: time[2],
        day: time[3],
        hour: time[4],
        minute: time[5],
        second: time[6],
    };
    assert(fields == wire_fields(time@));
    ValidTime::from_fields(fields)
}

/// Why the clock comparison could not be made.
#[derive(Clone, Copy, Debug, PartialEq, Eq, Structural)]
pub enum ClockError {
    /// The peer's value is too short or does not name a real day and time.
    InvalidServiceTime,
    /// The local time does not name a real day and time.
    InvalidLocalTime,
}

/// Whether two timestamps are more than the allowed skew apart.
pub open spec fn skew_exceeded(service: int, local: int) -> bool {
    service - local > 60 * DIFF_IN_MINUTES_TO_FORCE_SYNC || local - service > 60
        * DIFF_IN_MINUTES_TO_FORCE_SYNC
}

/// Whether a peer clock at `service` must be rewritten from a local clock at
/// `local`: exactly when they are more than ten minutes apart.
pub fn needs_clock_sync(service: &ValidTime, local: &ValidTime) -> (r: bool)
    ensures
        r == skew_exceeded(service.timestamp as int, local.timestamp as int),
{
    let s: i128 = service.timestamp as i128;
    let l: i128 = local.timestamp as i128;
    let diff: i128 = if s >= l { s - l } else { l - s };
    diff > (60 * DIFF_IN_MINUTES_TO_FORCE_SYNC) as i128
}

/// The clock-sync step of the client: reads the peer's time from its wire
/// form and, when it is more than ten minutes from the local time, gives the
/// local time in wire form to write back; gives none when the clocks agree.
pub fn clock_sync_write(service_value: &[u8], local: &CalendarTime) -> (r: Result<
    Option<Vec<u8>>,
    ClockError,
>)
    requires
        local.wf(),
    ensures
        service_value@.len() < 7 ==> r == Err::<Option<Vec<u8>>, ClockError>(
            ClockError::InvalidServiceTime,
        ),
        service_value@.len() >= 7 ==> match (
            civil_timestamp(wire_fields(service_value@)),
            civil_timestamp(local.date_time),
        ) {
            (None, _) => r == Err::<Option<Vec<u8>>, ClockError>(ClockError::InvalidServiceTime),
            (Some(_), None) => r == Err::<Option<Vec<u8>>, ClockError>(ClockError::InvalidLocalTime),
            (Some(s), Some(l)) => if skew_exceeded(s, l) {
                r matches Ok(Some(data)) && data@ == wire_time(*local)
            } else {
                r matches Ok(None)
            },
        },
{
    if service_value.len() < 7 {
        return Err(ClockError::InvalidServiceTime);
    }
    let service = match vector_to_naive_date_time(service_value) {
        Some(v) => v,
        None => return Err(ClockError::InvalidServiceTime),
    };
    let now = match ValidTime::from_fields(local.date_time) {
        Some(v) => v,
        None => return Err(ClockError::InvalidLocalTime),
    };
    if needs_clock_sync(&service, &now) {
        Ok(Some(date_time_to_vector(local)))
    } else {
        Ok(None)
    }
}

} // verus!
