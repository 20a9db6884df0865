//! The moment at which something happens, as a UTC timestamp in ISO-8601.

use crate::text::decimal;
use crate::text::digit;
use crate::text::digit_text;
use crate::text::number_text;
use vstd::prelude::*;

verus! {

// ---------------------------------------------------------------------------
// The calendar
// ---------------------------------------------------------------------------
pub open spec fn is_leap(year: nat) -> bool {
    year % 4 == 0 && (year % 100 != 0 || year % 400 == 0)
}

/// The number of days in a year.
pub open spec fn year_days(year: nat) -> nat {
    if is_leap(year) {
        366
    } else {
        365
    }
}

/// The number of days in a month, which is counted from one.
pub open spec fn month_days(year: nat, month: nat) -> nat {
    if month == 2 {
        if is_leap(year) {
            29
        } else {
            28
        }
    } else if month == 4 || month == 6 || month == 9 || month == 11 {
        30
    } else {
        31
    }
}

/// The year in which the day stands that comes `days` after the first of `year`,
/// and the days of that year before it.
pub open spec fn year_at(year: nat, days: nat) -> (nat, nat)
    decreases days,
{
    if days < year_days(year) {
        (year, days)
    } else {
        year_at(year + 1, (days - year_days(year)) as nat)
    }
}

/// The month in which the day stands that comes `days` after the first of `month`,
/// and the days of that month before it.
pub open spec fn month_at(year: nat, month: nat, days: nat) -> (nat, nat)
    decreases days,
{
    if days < month_days(year, month) {
        (month, days)
    } else {
        month_at(year, month + 1, (days - month_days(year, month)) as nat)
    }
}

/// A number below one hundred, in two digits.
pub open spec fn two_digits(n: nat) -> Seq<char> {
    seq![digit(n / 10), digit(n % 10)]
}

/// A year of four digits or more; one of more than four has a sign.
pub open spec fn year_text(year: nat) -> Seq<char> {
    if year > 9999 {
        "+"@ + decimal(year)
    } else {
        decimal(year)
    }
}

/// The date of the day that comes `days` after the first of January 1970.
pub open spec fn date_text(days: nat) -> Seq<char> {
    let (year, in_year) = year_at(1970, days);
    let (month, in_month) = month_at(year, 1, in_year);
    year_text(year) + "-"@ + two_digits(month) + "-"@ + two_digits(in_month + 1)
}

/// The time of day that comes `seconds` after midnight.
pub open spec fn time_text(seconds: nat) -> Seq<char> {
    two_digits(seconds / 3600) + ":"@ + two_digits(seconds / 60 % 60) + ":"@ + two_digits(
        seconds % 60,
    )
}

/// The timestamp of the moment that comes `seconds` after the start of the Unix
/// epoch: `YYYY-MM-DDThh:mm:ssZ`.
pub open spec fn timestamp(seconds: nat) -> Seq<char> {
    date_text(seconds / 86400) + "T"@ + time_text(seconds % 86400) + "Z"@
}

// ---------------------------------------------------------------------------
// Whole cycles of the calendar
// ---------------------------------------------------------------------------
/// The days of the `n` years from `year` on.
pub open spec fn span(year: nat, n: nat) -> nat
    decreases n,
{
    if n == 0 {
        0
    } else {
        year_days(year) + span(year + 1, (n - 1) as nat)
    }
}

/// The leap years up to `year`.
spec fn leaps(year: nat) -> int {
    year / 4 - year / 100 + year / 400
}

proof fn lemma_leaps_step(year: nat)
    requires
        year > 0,
    ensures
        leaps(year) - leaps((year - 1) as nat) == if is_leap(year) {
            1int
        } else {
            0int
        },
{
}

proof fn lemma_span(year: nat, n: nat)
    requires
        year > 0,
    ensures
        span(year, n) == 365 * n + leaps((year + n - 1) as nat) - leaps((year - 1) as nat),
    decreases n,
{
    if n > 0 {
        lemma_span(year + 1, (n - 1) as nat);
        lemma_leaps_step(year);
    }
}

proof fn lemma_skip_years(year: nat, n: nat, days: nat)
    requires
        days >= span(year, n),
    ensures
        year_at(year, days) == year_at(year + n, (days - span(year, n)) as nat),
    decreases n,
{
    if n > 0 {
        lemma_skip_years(year + 1, (n - 1) as nat, (days - year_days(year)) as nat);
    }
}

/// The calendar repeats after 400 years, which have 146097 days.
proof fn lemma_cycles(k: nat, days: nat)
    requires
        days >= 146097 * k,
    ensures
        year_at(1970, days) == year_at(1970 + 400 * k, (days - 146097 * k) as nat),
{
    lemma_span(1970, 400 * k);
    assert(leaps((1969 + 400 * k) as nat) == leaps(1969) + 97 * k);
    lemma_skip_years(1970, 400 * k, days);
}

/// The days of the `n` months from `month` on.
pub open spec fn month_span(year: nat, month: nat, n: nat) -> nat
    decreases n,
{
    if n == 0 {
        0
    } else {
        month_days(year, month) + month_span(year, month + 1, (n - 1) as nat)
    }
}

proof fn lemma_year_at(year: nat, days: nat)
    ensures
        ({
            let (y, rest) = year_at(year, days);
            &&& y >= year
            &&& rest < year_days(y)
            &&& days == span(year, (y - year) as nat) + rest
        }),
    decreases days,
{
    if days >= year_days(year) {
        lemma_year_at(year + 1, (days - year_days(year)) as nat);
    }
}

proof fn lemma_month_at(year: nat, month: nat, days: nat)
    requires
        1 <= month <= 12,
        days < rest_of_year(year, month),
    ensures
        ({
            let (m, rest) = month_at(year, month, days);
            &&& month <= m <= 12
            &&& rest < month_days(year, m)
            &&& days == month_span(year, month, (m - month) as nat) + rest
        }),
    decreases days,
{
    reveal_with_fuel(rest_of_year, 2);
    if days >= month_days(year, month) {
        lemma_month_at(year, month + 1, (days - month_days(year, month)) as nat);
    }
}

/// The date of a day is one of the calendar, and tells the day: the whole years,
/// the whole months and the days before it add up.
pub proof fn law_date_tells_the_day(days: nat)
    ensures
        ({
            let (year, in_year) = year_at(1970, days);
            let (month, in_month) = month_at(year, 1, in_year);
            &&& year >= 1970
            &&& 1 <= month <= 12
            &&& in_month < month_days(year, month)
            &&& days == span(1970, (year - 1970) as nat) + month_span(
                year,
                1,
                (month - 1) as nat,
            ) + in_month
        }),
{
    lemma_year_at(1970, days);
    let (year, in_year) = year_at(1970, days);
    lemma_months(year);
    lemma_month_at(year, 1, in_year);
}

/// A year has 366 days where four divides it, unless a hundred does and four hundred
/// does not; otherwise it has 365.
pub proof fn law_lengths_of_years(year: nat)
    ensures
        year % 400 == 0 ==> year_days(year) == 366,
        year % 400 != 0 && year % 100 == 0 ==> year_days(year) == 365,
        year % 100 != 0 && year % 4 == 0 ==> year_days(year) == 366,
        year % 4 != 0 ==> year_days(year) == 365,
{
}

/// The months have the lengths of the calendar, and February those of a leap year
/// in one.
pub proof fn law_lengths_of_months(year: nat, month: nat)
    requires
        1 <= month <= 12,
    ensures
        month != 2 ==> month_days(year, month) == seq![
            31nat,
            28,
            31,
            30,
            31,
            30,
            31,
            31,
            30,
            31,
            30,
            31,
        ][month - 1],
        month_days(year, 2) + 337 == year_days(year),
{
}

proof fn lemma_skip_months(year: nat, month: nat, n: nat, days: nat)
    requires
        days >= month_span(year, month, n),
    ensures
        month_at(year, month, days) == month_at(
            year,
            month + n,
            (days - month_span(year, month, n)) as nat,
        ),
    decreases n,
{
    if n > 0 {
        lemma_skip_months(year, month + 1, (n - 1) as nat, (days - month_days(year, month)) as nat);
    }
}

proof fn lemma_month_span_bound(year: nat, month: nat, n: nat)
    requires
        month + n <= 12,
        month >= 1,
    ensures
        month_span(year, month, n) + rest_of_year(year, month + n) == rest_of_year(year, month),
    decreases n,
{
    reveal_with_fuel(rest_of_year, 2);
    if n > 0 {
        lemma_month_span_bound(year, month + 1, (n - 1) as nat);
    }
}

/// The date of a day is written as its year, its month and its day of the month,
/// the latter two in two digits.
pub proof fn law_date_is_written(year: nat, month: nat, day: nat)
    requires
        year >= 1970,
        1 <= month <= 12,
        1 <= day <= month_days(year, month),
    ensures
        ({
            let days = span(1970, (year - 1970) as nat) + month_span(year, 1, (month - 1) as nat)
                + day - 1;
            date_text(days as nat) == (if year > 9999 {
                seq!['+'] + decimal(year)
            } else {
                decimal(year)
            }) + seq!['-'] + two_digits(month) + seq!['-'] + two_digits(day)
        }),
{
    let before = span(1970, (year - 1970) as nat);
    let in_year = (month_span(year, 1, (month - 1) as nat) + day - 1) as nat;
    lemma_months(year);
    lemma_month_span_bound(year, 1, (month - 1) as nat);
    reveal_with_fuel(rest_of_year, 2);
    assert(in_year < year_days(year));
    lemma_skip_years(1970, (year - 1970) as nat, before + in_year);
    lemma_skip_months(year, 1, (month - 1) as nat, in_year);
    reveal_strlit("-");
    reveal_strlit("+");
    assert("-"@ =~= seq!['-']);
    assert("+"@ =~= seq!['+']);
}

/// A number below one hundred is written in two digits, tens first.
pub proof fn law_two_digits(n: nat)
    requires
        n < 100,
    ensures
        two_digits(n).len() == 2,
        two_digits(n)[0] as int == 48 + n / 10,
        two_digits(n)[1] as int == 48 + n % 10,
{
}

/// A timestamp is the date, a `T`, the hours, minutes and seconds of the day in two
/// digits each, and a `Z`.
pub proof fn law_time_is_written(days: nat, hours: nat, minutes: nat, seconds: nat)
    requires
        hours < 24,
        minutes < 60,
        seconds < 60,
    ensures
        timestamp(days * 86400 + hours * 3600 + minutes * 60 + seconds) == date_text(days)
            + seq!['T'] + two_digits(hours) + seq![':'] + two_digits(minutes) + seq![':']
            + two_digits(seconds) + seq!['Z'],
{
    reveal_strlit("T");
    reveal_strlit(":");
    reveal_strlit("Z");
    assert("T"@ =~= seq!['T']);
    assert(":"@ =~= seq![':']);
    assert("Z"@ =~= seq!['Z']);
    let of_day = hours * 3600 + minutes * 60 + seconds;
    let s = days * 86400 + of_day;
    assert(s / 86400 == days && s % 86400 == of_day);
    assert(of_day / 3600 == hours && of_day / 60 % 60 == minutes && of_day % 60 == seconds);
    assert(timestamp(s) =~= date_text(days) + seq!['T'] + two_digits(hours) + seq![':']
        + two_digits(minutes) + seq![':'] + two_digits(seconds) + seq!['Z']);
}

/// The days of the months from `month` to the last.
spec fn rest_of_year(year: nat, month: nat) -> nat
    decreases 13 - month,
{
    if month > 12 {
        0
    } else {
        month_days(year, month) + rest_of_year(year, month + 1)
    }
}

/// The twelve months make up the year.
proof fn lemma_months(year: nat)
    ensures
        rest_of_year(year, 1) == year_days(year),
{
    reveal_with_fuel(rest_of_year, 13);
}

// ---------------------------------------------------------------------------
// Writing timestamps
// ---------------------------------------------------------------------------
fn count_year_days(year: u64) -> (r: u64)
    ensures
        r == year_days(year as nat),
{
    if year % 4 == 0 && (year % 100 != 0 || year % 400 == 0) {
        366
    } else {
        365
    }
}

fn count_month_days(year: u64, month: u64) -> (r: u64)
    ensures
        r == month_days(year as nat, month as nat),
{
    if month == 2 {
        if count_year_days(year) == 366 {
            29
        } else {
            28
        }
    } else if month == 4 || month == 6 || month == 9 || month == 11 {
        30
    } else {
        31
    }
}

fn show_two_digits(n: u64) -> (r: String)
    requires
        n < 100,
    ensures
        r@ == two_digits(n as nat),
{
    let r = digit_text(n / 10).to_owned().concat(digit_text(n % 10));
    assert(r@ =~= two_digits(n as nat));
    r
}

fn show_date(days: u64) -> (r: String)
    requires
        days <= u64::MAX / 86400,
    ensures
        r@ == date_text(days as nat),
{
    let cycles: u64 = days / 146097;
    let mut rest: u64 = days % 146097;
    let mut year: u64 = 1970 + 400 * cycles;
    proof {
        lemma_cycles(cycles as nat, days as nat);
    }
    let mut length: u64 = count_year_days(year);
    while rest >= length
        invariant
            year + rest <= 1970 + 400 * (u64::MAX / 86400 / 146097) + 146097,
            length == year_days(year as nat),
            year_at(1970, days as nat) == year_at(year as nat, rest as nat),
        decreases rest,
    {
        rest = rest - length;
        year = year + 1;
        length = count_year_days(year);
    }
    assert(year_at(1970, days as nat) == (year as nat, rest as nat));
    let ghost in_year = rest as nat;
    let mut month: u64 = 1;
    let mut length: u64 = count_month_days(year, month);
    proof {
        lemma_months(year as nat);
    }
    while rest >= length
        invariant
            1 <= month <= 12,
            length == month_days(year as nat, month as nat),
            rest < rest_of_year(year as nat, month as nat),
            month_at(year as nat, 1, in_year) == month_at(year as nat, month as nat, rest as nat),
        decreases rest,
    {
        proof {
            reveal_with_fuel(rest_of_year, 2);
        }
        rest = rest - length;
        month = month + 1;
        length = count_month_days(year, month);
    }
    let digits = number_text(year);
    let year_digits = if year > 9999 {
        "+".to_owned().concat(digits.as_str())
    } else {
        digits
    };
    year_digits.concat("-").concat(show_two_digits(month).as_str()).concat("-").concat(
        show_two_digits(rest + 1).as_str(),
    )
}

/// The timestamp of the moment that comes `seconds` after the start of the Unix
/// epoch; that of its start where there is no such moment.
pub fn iso8601(seconds: Option<u64>) -> (r: String)
    ensures
        r@ == timestamp(
            match seconds {
                Some(s) => s as nat,
                None => 0,
            },
        ),
{
    let s: u64 = match seconds {
        Some(s) => s,
        None => 0,
    };
    let of_day: u64 = s % 86400;
    show_date(s / 86400).concat("T").concat(show_two_digits(of_day / 3600).as_str()).concat(
        ":",
    ).concat(show_two_digits(of_day / 60 % 60).as_str()).concat(":").concat(
        show_two_digits(of_day % 60).as_str(),
    ).concat("Z")
}

// ---------------------------------------------------------------------------
// The present moment
// ---------------------------------------------------------------------------
/// A point in time of the system's clock.
#[verifier::external_type_specification]
#[verifier::external_body]
pub struct ExSystemTime(std::time::SystemTime);

/// What `SystemTime::duration_since` gives, from the start of the Unix epoch.
pub uninterp spec fn span_since_epoch(t: std::time::SystemTime) -> Option<std::time::Duration>;

/// What `Duration::as_secs` gives.
pub uninterp spec fn seconds_of(d: std::time::Duration) -> u64;

/// `SystemTime::now` of std: the time, of which nothing is stated.
#[verifier::external_body]
fn system_now() -> (r: std::time::SystemTime) {
    std::time::SystemTime::now()
}

/// `SystemTime::duration_since` of std, from the start of the Unix epoch; `None`
/// for a time before it. It depends on the time alone.
#[verifier::external_body]
fn since_epoch(t: std::time::SystemTime) -> (r: Option<std::time::Duration>)
    ensures
        r == span_since_epoch(t),
{
    t.duration_since(std::time::UNIX_EPOCH).ok()
}

/// `Duration::as_secs` of std: the whole seconds of a span, which depend on the
/// span alone.
#[verifier::external_body]
fn whole_seconds(d: std::time::Duration) -> (r: u64)
    ensures
        r == seconds_of(d),
{
    d.as_secs()
}

/// The timestamp of a time of the system's clock; that of the start of the Unix
/// epoch for a time before it.
pub open spec fn moment(t: std::time::SystemTime) -> Seq<char> {
    timestamp(
        match span_since_epoch(t) {
            Some(d) => seconds_of(d) as nat,
            None => 0,
        },
    )
}

/// UTC timestamp of the present moment, in ISO-8601.
pub fn now_iso8601() -> (r: String)
    ensures
        exists|t: std::time::SystemTime| r@ == #[trigger] moment(t),
{
    let t = system_now();
    let r = match since_epoch(t) {
        Some(d) => iso8601(Some(whole_seconds(d))),
        None => iso8601(None),
    };
    assert(r@ == moment(t));
    r
}

/// The moment of a time of the clock is told by its whole seconds; a time before the
/// epoch counts as its start.
pub proof fn law_moment_by_whole_seconds(t: std::time::SystemTime)
    ensures
        span_since_epoch(t) is Some ==> moment(t) == timestamp(
            seconds_of(span_since_epoch(t)->Some_0) as nat,
        ),
        span_since_epoch(t) is None ==> moment(t) == timestamp(0),
{
}

} // verus!
