//! Builders for schedule expressions: a one-time `at(...)` expression, a
//! `rate(...)` expression with its unit pluralized, and a six-field
//! `cron(...)` expression with range validation. Every field is explicit;
//! a missing field is an error, never a silent default.
use crate::decimal::dec_digits;
use crate::decimal::int_digits;
use crate::decimal::pad2_digits;
use crate::decimal::pad4_digits;
use crate::decimal::parse_field;
use crate::decimal::parsed_field;
use crate::decimal::contains_char;
use crate::decimal::is_single_char;
use crate::decimal::i32_to_dec;
use crate::decimal::u64_to_dec;
use crate::decimal::u64_to_dec2;
use crate::decimal::u64_to_dec4;
use vstd::prelude::*;
use vstd::string::StrSliceExecFns;
use vstd::string::StringExecFns;

verus! {

/// Why an expression could not be built.
#[derive(Debug, Clone, PartialEq, Eq)]
pub enum Error {
    ValidationError(String),
}

/// A calendar instant in UTC, already split into the fields the `at(...)`
/// expression renders.
#[derive(Debug, Clone, Copy, PartialEq, Eq, Structural)]
pub struct UtcDateTime {
    pub year: u16,
    pub month: u8,
    pub day: u8,
    pub hour: u8,
    pub minute: u8,
    pub second: u8,
}

impl UtcDateTime {
    /// The fields stay in their calendar ranges.
    pub open spec fn wf(self) -> bool {
        &&& self.year <= 9999
        &&& 1 <= self.month <= 12
        &&& 1 <= self.day <= 31
        &&& self.hour < 24
        &&& self.minute < 60
        &&& self.second < 60
    }

    /// An instant from its fields; `None` when a field is out of range.
    pub fn new(year: u16, month: u8, day: u8, hour: u8, minute: u8, second: u8) -> (r: Option<
        UtcDateTime,
    >)
        ensures
            ({
                let d = UtcDateTime { year, month, day, hour, minute, second };
                if d.wf() {
                    r == Some(d)
                } else {
                    r is None
                }
            }),
    {
        if year <= 9999 && 1 <= month && month <= 12 && 1 <= day && day <= 31 && hour < 24
            && minute < 60 && second < 60 {
            Some(UtcDateTime { year, month, day, hour, minute, second })
        } else {
            None
        }
    }
}

/// The `at(yyyy-mm-ddThh:mm:ss)` rendering of an instant.
pub open spec fn at_expr(d: UtcDateTime) -> Seq<char> {
    "at("@ + pad4_digits(d.year as nat) + "-"@ + pad2_digits(d.month as nat) + "-"@ + pad2_digits(
        d.day as nat,
    ) + "T"@ + pad2_digits(d.hour as nat) + ":"@ + pad2_digits(d.minute as nat) + ":"@
        + pad2_digits(d.second as nat) + ")"@
}

/// Builds a one-time schedule expression, `at(yyyy-mm-ddThh:mm:ss)`.
pub struct AtExpressionBuilder {
    datetime: Option<UtcDateTime>,
}

impl AtExpressionBuilder {
    /// The instant set so far.
    pub closed spec fn datetime_spec(self) -> Option<UtcDateTime> {
        self.datetime
    }

    /// A builder with no instant set.
    pub fn new() -> (r: Self)
        ensures
            r.datetime_spec() is None,
    {
        AtExpressionBuilder { datetime: None }
    }

    /// Sets the instant the expression fires at.
    pub fn datetime(self, datetime: UtcDateTime) -> (r: Self)
        ensures
            r.datetime_spec() == Some(datetime),
    {
        AtExpressionBuilder { datetime: Some(datetime) }
    }

    /// Renders the expression; an unset instant is an error.
    pub fn build(&self) -> (r: Result<String, Error>)
        requires
            self.datetime_spec() matches Some(d) ==> d.wf(),
        ensures
            match r {
                Ok(s) => self.datetime_spec() matches Some(d) && s@ == at_expr(d),
                Err(Error::ValidationError(m)) => self.datetime_spec() is None && m@
                    == "datetime is required for at expression"@,
            },
    {
        match &self.datetime {
            None => Err(
                Error::ValidationError("datetime is required for at expression".to_owned()),
            ),
            Some(d) => {
                let mut s: String = "at(".to_owned();
                let year = u64_to_dec4(d.year as u64);
                s.append(year.as_str());
                s.append("-");
                let month = u64_to_dec2(d.month as u64);
                s.append(month.as_str());
                s.append("-");
                let day = u64_to_dec2(d.day as u64);
                s.append(day.as_str());
                s.append("T");
                let hour = u64_to_dec2(d.hour as u64);
                s.append(hour.as_str());
                s.append(":");
                let minute = u64_to_dec2(d.minute as u64);
                s.append(minute.as_str());
                s.append(":");
                let second = u64_to_dec2(d.second as u64);
                s.append(second.as_str());
                s.append(")");
                Ok(s)
            },
        }
    }
}

/// Time unit for rate-based schedules.
#[derive(Debug, Clone, Copy, PartialEq, Eq, Structural)]
pub enum RateUnit {
    Minutes,
    Hours,
    Days,
}

/// The unit's rendering beside `value`: singular for one, plural otherwise.
pub open spec fn unit_str(u: RateUnit, value: nat) -> Seq<char> {
    match u {
        RateUnit::Minutes => if value == 1 {
            "minute"@
        } else {
            "minutes"@
        },
        RateUnit::Hours => if value == 1 {
            "hour"@
        } else {
            "hours"@
        },
        RateUnit::Days => if value == 1 {
            "day"@
        } else {
            "days"@
        },
    }
}

impl RateUnit {
    /// The unit as text, pluralized against `value`.
    pub fn as_str(&self, value: u32) -> (r: &'static str)
        ensures
            r@ == unit_str(*self, value as nat),
    {
        match self {
            RateUnit::Minutes => {
                if value == 1 {
                    "minute"
                } else {
                    "minutes"
                }
            },
            RateUnit::Hours => {
                if value == 1 {
                    "hour"
                } else {
                    "hours"
                }
            },
            RateUnit::Days => {
                if value == 1 {
                    "day"
                } else {
                    "days"
                }
            },
        }
    }
}

/// What `RateExpressionBuilder::build` owes: the missing-field and
/// zero-value errors in order, else the `rate(value unit)` rendering.
pub open spec fn rate_build_spec(value: Option<u32>, unit: Option<RateUnit>) -> Result<
    Seq<char>,
    Seq<char>,
> {
    match value {
        None => Err("value is required for rate expression"@),
        Some(v) => if v == 0 {
            Err("value must be a positive number"@)
        } else {
            match unit {
                None => Err("unit is required for rate expression"@),
                Some(u) => Ok("rate("@ + dec_digits(v as nat) + " "@ + unit_str(u, v as nat) + ")"@),
            }
        },
    }
}

/// Builds a rate-based schedule expression, `rate(value unit)`.
pub struct RateExpressionBuilder {
    value: Option<u32>,
    unit: Option<RateUnit>,
}

impl RateExpressionBuilder {
    /// The interval value set so far.
    pub closed spec fn value_spec(self) -> Option<u32> {
        self.value
    }

    /// The unit set so far.
    pub closed spec fn unit_spec(self) -> Option<RateUnit> {
        self.unit
    }

    /// A builder with nothing set.
    pub fn new() -> (r: Self)
        ensures
            r.value_spec() is None,
            r.unit_spec() is None,
    {
        RateExpressionBuilder { value: None, unit: None }
    }

    /// Sets the interval value.
    pub fn value(self, value: u32) -> (r: Self)
        ensures
            r.value_spec() == Some(value),
            r.unit_spec() == self.unit_spec(),
    {
        RateExpressionBuilder { value: Some(value), unit: self.unit }
    }

    /// Sets the unit.
    pub fn unit(self, unit: RateUnit) -> (r: Self)
        ensures
            r.value_spec() == self.value_spec(),
            r.unit_spec() == Some(unit),
    {
        RateExpressionBuilder { value: self.value, unit: Some(unit) }
    }

    /// Sets the value with the unit of minutes.
    pub fn minutes(self, value: u32) -> (r: Self)
        ensures
            r.value_spec() == Some(value),
            r.unit_spec() == Some(RateUnit::Minutes),
    {
        RateExpressionBuilder { value: Some(value), unit: Some(RateUnit::Minutes) }
    }

    /// Sets the value with the unit of hours.
    pub fn hours(self, value: u32) -> (r: Self)
        ensures
            r.value_spec() == Some(value),
            r.unit_spec() == Some(RateUnit::Hours),
    {
        RateExpressionBuilder { value: Some(value), unit: Some(RateUnit::Hours) }
    }

    /// Sets the value with the unit of days.
    pub fn days(self, value: u32) -> (r: Self)
        ensures
            r.value_spec() == Some(value),
            r.unit_spec() == Some(RateUnit::Days),
    {
        RateExpressionBuilder { value: Some(value), unit: Some(RateUnit::Days) }
    }

    /// Renders the expression: both fields must be set and the value
    /// positive, each missing piece reported in order.
    pub fn build(&self) -> (r: Result<String, Error>)
        ensures
            match r {
                Ok(s) => rate_build_spec(self.value_spec(), self.unit_spec()) matches Ok(v) && s@
                    == v,
                Err(Error::ValidationError(m)) => rate_build_spec(
                    self.value_spec(),
                    self.unit_spec(),
                ) matches Err(v) && m@ == v,
            },
    {
        let value = match &self.value {
            None => {
                return Err(
                    Error::ValidationError("value is required for rate expression".to_owned()),
                );
            },
            Some(v) => *v,
        };
        if value == 0 {
            return Err(Error::ValidationError("value must be a positive number".to_owned()));
        }
        let unit = match &self.unit {
            None => {
                return Err(
                    Error::ValidationError("unit is required for rate expression".to_owned()),
                );
            },
            Some(u) => *u,
        };
        let mut s: String = "rate(".to_owned();
        let v = u64_to_dec(value as u64);
        s.append(v.as_str());
        s.append(" ");
        s.append(unit.as_str(value));
        s.append(")");
        Ok(s)
    }
}

/// A character allowed in a named cron field: a letter, or the range,
/// list and wildcard punctuation.
pub open spec fn is_name_char(c: char) -> bool {
    ('A' <= c && c <= 'Z') || ('a' <= c && c <= 'z') || c == '-' || c == ',' || c == '*' || c
        == '?'
}

/// Whether a cron field is made of names and punctuation only, so that the
/// numeric range check does not apply to it.
pub open spec fn name_like(s: Seq<char>) -> bool {
    forall|i: int| 0 <= i < s.len() ==> is_name_char(#[trigger] s[i])
}

fn is_name_like(s: &str) -> (b: bool)
    ensures
        b == name_like(s@),
{
    let n = s.unicode_len();
    let mut i: usize = 0;
    while i < n
        invariant
            i <= n,
            n == s@.len(),
            forall|j: int| 0 <= j < i ==> is_name_char(#[trigger] s@[j]),
        decreases n - i,
    {
        let c = s.get_char(i);
        if !((c >= 'A' && c <= 'Z') || (c >= 'a' && c <= 'z') || c == '-' || c == ',' || c == '*'
            || c == '?') {
            assert(!is_name_char(s@[i as int]));
            return false;
        }
        i += 1;
    }
    true
}

/// The message a field outside its range is reported with.
pub open spec fn range_msg(name: Seq<char>, min: int, max: int) -> Seq<char> {
    name + " must be between "@ + int_digits(min) + " and "@ + int_digits(max)
}

/// When a cron field passes the range check: wildcards, and fields using
/// list, range, step or calendar punctuation, are left alone, as is
/// anything that does not read as a number; a plain number must lie in
/// `min ..= max`.
pub open spec fn field_in_range(field: Seq<char>, min: int, max: int) -> bool {
    ||| field =~= seq!['*']
    ||| field =~= seq!['?']
    ||| field.contains(',')
    ||| field.contains('-')
    ||| field.contains('/')
    ||| field.contains('L')
    ||| field.contains('W')
    ||| field.contains('#')
    ||| (match parsed_field(field) {
        Some(v) => min <= v && v <= max,
        None => true,
    })
}

/// Builds a cron-based schedule expression,
/// `cron(minutes hours day-of-month month day-of-week year)`.
pub struct CronExpressionBuilder {
    minutes: Option<String>,
    hours: Option<String>,
    day_of_month: Option<String>,
    month: Option<String>,
    day_of_week: Option<String>,
    year: Option<String>,
}

/// What `CronExpressionBuilder::build` owes: the missing-field errors in
/// field order, then the range checks in that same order (named month and
/// day-of-week fields are exempt), then the rule that at most one of
/// day-of-month and day-of-week is concrete; else the rendered expression,
/// the year appended only when set.
pub open spec fn cron_build_spec(
    minutes: Option<Seq<char>>,
    hours: Option<Seq<char>>,
    day_of_month: Option<Seq<char>>,
    month: Option<Seq<char>>,
    day_of_week: Option<Seq<char>>,
    year: Option<Seq<char>>,
) -> Result<Seq<char>, Seq<char>> {
    if minutes is None {
        Err("minutes is required for cron expression"@)
    } else if hours is None {
        Err("hours is required for cron expression"@)
    } else if day_of_month is None {
        Err("day_of_month is required for cron expression"@)
    } else if month is None {
        Err("month is required for cron expression"@)
    } else if day_of_week is None {
        Err("day_of_week is required for cron expression"@)
    } else if !field_in_range(minutes->0, 0, 59) {
        Err(range_msg("minutes"@, 0, 59))
    } else if !field_in_range(hours->0, 0, 23) {
        Err(range_msg("hours"@, 0, 23))
    } else if !field_in_range(day_of_month->0, 1, 31) {
        Err(range_msg("day_of_month"@, 1, 31))
    } else if !name_like(month->0) && !field_in_range(month->0, 1, 12) {
        Err(range_msg("month"@, 1, 12))
    } else if !name_like(day_of_week->0) && !field_in_range(day_of_week->0, 1, 7) {
        Err(range_msg("day_of_week"@, 1, 7))
    } else if (match year {
        Some(y) => !field_in_range(y, 1970, 2199),
        None => false,
    }) {
        Err(range_msg("year"@, 1970, 2199))
    } else if !(day_of_month->0 =~= seq!['?']) && !(day_of_week->0 =~= seq!['?']) {
        Err("Cannot specify both day_of_month and day_of_week, one must be '?'"@)
    } else {
        Ok(
            "cron("@ + minutes->0 + " "@ + hours->0 + " "@ + day_of_month->0 + " "@ + month->0
                + " "@ + day_of_week->0 + (match year {
                Some(y) => " "@ + y,
                None => Seq::<char>::empty(),
            }) + ")"@,
        )
    }
}

impl CronExpressionBuilder {
    /// The minutes field set so far.
    pub closed spec fn minutes_spec(self) -> Option<Seq<char>> {
        match self.minutes {
            Some(s) => Some(s@),
            None => None,
        }
    }

    /// The hours field set so far.
    pub closed spec fn hours_spec(self) -> Option<Seq<char>> {
        match self.hours {
            Some(s) => Some(s@),
            None => None,
        }
    }

    /// The day-of-month field set so far.
    pub closed spec fn day_of_month_spec(self) -> Option<Seq<char>> {
        match self.day_of_month {
            Some(s) => Some(s@),
            None => None,
        }
    }

    /// The month field set so far.
    pub closed spec fn month_spec(self) -> Option<Seq<char>> {
        match self.month {
            Some(s) => Some(s@),
            None => None,
        }
    }

    /// The day-of-week field set so far.
    pub closed spec fn day_of_week_spec(self) -> Option<Seq<char>> {
        match self.day_of_week {
            Some(s) => Some(s@),
            None => None,
        }
    }

    /// The year field set so far.
    pub closed spec fn year_spec(self) -> Option<Seq<char>> {
        match self.year {
            Some(s) => Some(s@),
            None => None,
        }
    }

    /// A builder with no field set.
    pub fn new() -> (r: Self)
        ensures
            r.minutes_spec() is None,
            r.hours_spec() is None,
            r.day_of_month_spec() is None,
            r.month_spec() is None,
            r.day_of_week_spec() is None,
            r.year_spec() is None,
    {
        CronExpressionBuilder {
            minutes: None,
            hours: None,
            day_of_month: None,
            month: None,
            day_of_week: None,
            year: None,
        }
    }

    /// Sets the minutes field.
    pub fn minutes(self, minutes: &str) -> (r: Self)
        ensures
            r.minutes_spec() == Some(minutes@),
            r.hours_spec() == self.hours_spec(),
            r.day_of_month_spec() == self.day_of_month_spec(),
            r.month_spec() == self.month_spec(),
            r.day_of_week_spec() == self.day_of_week_spec(),
            r.year_spec() == self.year_spec(),
    {
        CronExpressionBuilder { minutes: Some(minutes.to_owned()), ..self }
    }

    /// Sets the hours field.
    pub fn hours(self, hours: &str) -> (r: Self)
        ensures
            r.minutes_spec() == self.minutes_spec(),
            r.hours_spec() == Some(hours@),
            r.day_of_month_spec() == self.day_of_month_spec(),
            r.month_spec() == self.month_spec(),
            r.day_of_week_spec() == self.day_of_week_spec(),
            r.year_spec() == self.year_spec(),
    {
        CronExpressionBuilder { hours: Some(hours.to_owned()), ..self }
    }

    /// Sets the day-of-month field.
    pub fn day_of_month(self, day_of_month: &str) -> (r: Self)
        ensures
            r.minutes_spec() == self.minutes_spec(),
            r.hours_spec() == self.hours_spec(),
            r.day_of_month_spec() == Some(day_of_month@),
            r.month_spec() == self.month_spec(),
            r.day_of_week_spec() == self.day_of_week_spec(),
            r.year_spec() == self.year_spec(),
    {
        CronExpressionBuilder { day_of_month: Some(day_of_month.to_owned()), ..self }
    }

    /// Sets the month field.
    pub fn month(self, month: &str) -> (r: Self)
        ensures
            r.minutes_spec() == self.minutes_spec(),
            r.hours_spec() == self.hours_spec(),
            r.day_of_month_spec() == self.day_of_month_spec(),
            r.month_spec() == Some(month@),
            r.day_of_week_spec() == self.day_of_week_spec(),
            r.year_spec() == self.year_spec(),
    {
        CronExpressionBuilder { month: Some(month.to_owned()), ..self }
    }

    /// Sets the day-of-week field.
    pub fn day_of_week(self, day_of_week: &str) -> (r: Self)
        ensures
            r.minutes_spec() == self.minutes_spec(),
            r.hours_spec() == self.hours_spec(),
            r.day_of_month_spec() == self.day_of_month_spec(),
            r.month_spec() == self.month_spec(),
            r.day_of_week_spec() == Some(day_of_week@),
            r.year_spec() == self.year_spec(),
    {
        CronExpressionBuilder { day_of_week: Some(day_of_week.to_owned()), ..self }
    }

    /// Sets the year field, the only optional one.
    pub fn year(self, year: &str) -> (r: Self)
        ensures
            r.minutes_spec() == self.minutes_spec(),
            r.hours_spec() == self.hours_spec(),
            r.day_of_month_spec() == self.day_of_month_spec(),
            r.month_spec() == self.month_spec(),
            r.day_of_week_spec() == self.day_of_week_spec(),
            r.year_spec() == Some(year@),
    {
        CronExpressionBuilder { year: Some(year.to_owned()), ..self }
    }

    /// Checks one field against its numeric range; wildcards and fields
    /// using list, range, step or calendar punctuation are accepted as
    /// they stand.
    pub fn validate_field(field: &str, name: &str, min: i32, max: i32) -> (r: Result<(), Error>)
        ensures
            match r {
                Ok(()) => field_in_range(field@, min as int, max as int),
                Err(Error::ValidationError(m)) => !field_in_range(field@, min as int, max as int)
                    && m@ == range_msg(name@, min as int, max as int),
            },
    {
        if is_single_char(field, '*') || is_single_char(field, '?') || contains_char(field, ',')
            || contains_char(field, '-') || contains_char(field, '/') || contains_char(field, 'L')
            || contains_char(field, 'W') || contains_char(field, '#') {
            return Ok(());
        }
        match parse_field(field) {
            Some(v) => {
                if v < min || v > max {
                    let mut m: String = name.to_owned();
                    m.append(" must be between ");
                    let mn = i32_to_dec(min);
                    m.append(mn.as_str());
                    m.append(" and ");
                    let mx = i32_to_dec(max);
                    m.append(mx.as_str());
                    return Err(Error::ValidationError(m));
                }
                Ok(())
            },
            None => Ok(()),
        }
    }

    /// Renders the expression: the five mandatory fields must be set and
    /// every field in range, and day-of-month and day-of-week may not both
    /// be concrete.
    pub fn build(&self) -> (r: Result<String, Error>)
        ensures
            ({
                let spec_result = cron_build_spec(
                    self.minutes_spec(),
                    self.hours_spec(),
                    self.day_of_month_spec(),
                    self.month_spec(),
                    self.day_of_week_spec(),
                    self.year_spec(),
                );
                match r {
                    Ok(s) => spec_result matches Ok(v) && s@ == v,
                    Err(Error::ValidationError(m)) => spec_result matches Err(v) && m@ == v,
                }
            }),
    {
        let minutes = match &self.minutes {
            None => {
                return Err(
                    Error::ValidationError("minutes is required for cron expression".to_owned()),
                );
            },
            Some(s) => s,
        };
        let hours = match &self.hours {
            None => {
                return Err(
                    Error::ValidationError("hours is required for cron expression".to_owned()),
                );
            },
            Some(s) => s,
        };
        let day_of_month = match &self.day_of_month {
            None => {
                return Err(
                    Error::ValidationError(
                        "day_of_month is required for cron expression".to_owned(),
                    ),
                );
            },
            Some(s) => s,
        };
        let month = match &self.month {
            None => {
                return Err(
                    Error::ValidationError("month is required for cron expression".to_owned()),
                );
            },
            Some(s) => s,
        };
        let day_of_week = match &self.day_of_week {
            None => {
                return Err(
                    Error::ValidationError(
                        "day_of_week is required for cron expression".to_owned(),
                    ),
                );
            },
            Some(s) => s,
        };
        match Self::validate_field(minutes.as_str(), "minutes", 0, 59) {
            Err(e) => {
                return Err(e);
            },
            Ok(()) => {},
        }
        match Self::validate_field(hours.as_str(), "hours", 0, 23) {
            Err(e) => {
                return Err(e);
            },
            Ok(()) => {},
        }
        match Self::validate_field(day_of_month.as_str(), "day_of_month", 1, 31) {
            Err(e) => {
                return Err(e);
            },
            Ok(()) => {},
        }
        if !is_name_like(month.as_str()) {
            match Self::validate_field(month.as_str(), "month", 1, 12) {
                Err(e) => {
                    return Err(e);
                },
                Ok(()) => {},
            }
        }
        if !is_name_like(day_of_week.as_str()) {
            match Self::validate_field(day_of_week.as_str(), "day_of_week", 1, 7) {
                Err(e) => {
                    return Err(e);
                },
                Ok(()) => {},
            }
        }
        if let Some(year) = &self.year {
            match Self::validate_field(year.as_str(), "year", 1970, 2199) {
                Err(e) => {
                    return Err(e);
                },
                Ok(()) => {},
            }
        }
        if !is_single_char(day_of_month.as_str(), '?') && !is_single_char(day_of_week.as_str(), '?')
        {
            return Err(
                Error::ValidationError(
                    "Cannot specify both day_of_month and day_of_week, one must be '?'".to_owned(),
                ),
            );
        }
        let mut s: String = "cron(".to_owned();
        s.append(minutes.as_str());
        s.append(" ");
        s.append(hours.as_str());
        s.append(" ");
        s.append(day_of_month.as_str());
        s.append(" ");
        s.append(month.as_str());
        s.append(" ");
        s.append(day_of_week.as_str());
        if let Some(year) = &self.year {
            s.append(" ");
            s.append(year.as_str());
        }
        s.append(")");
        Ok(s)
    }
}

} // verus!
