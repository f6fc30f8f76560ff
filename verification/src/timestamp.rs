//! A point in time as the fields of a UTC calendar date and clock time, and
//! the fixed-width stamp that opens the name of a debug artifact.

use vstd::prelude::*;
use chrono::{Datelike, Timelike};

verus! {

/// A UTC date and time, field by field.
///
/// `nanosecond` counts from the whole second; a value of a thousand million
/// or more stands for a leap second, which can only follow second 59 and is
/// shown as second 60.
#[derive(Clone, Copy, Debug, PartialEq, Eq, Structural)]
pub struct UtcTime {
    pub year: i32,
    pub month: u32,
    pub day: u32,
    pub hour: u32,
    pub minute: u32,
    pub second: u32,
    pub nanosecond: u32,
}

impl UtcTime {
    /// The fields are a date of the calendar, in a year that `chrono` can
    /// hold, and a time of the clock.
    pub open spec fn wf(self) -> bool {
        &&& FIRST_YEAR <= self.year <= LAST_YEAR
        &&& 1 <= self.month <= 12
        &&& 1 <= self.day <= days_in_month(self.year as int, self.month as int)
        &&& self.hour <= 23
        &&& self.minute <= 59
        &&& self.second <= 59
        &&& self.nanosecond < 2_000_000_000
        &&& self.nanosecond >= 1_000_000_000 ==> self.second == 59
    }

    /// The year is one that is written with four digits and no sign.
    pub open spec fn four_digit_year(self) -> bool {
        0 <= self.year <= 9999
    }

    /// The second as it is shown: 60 within a leap second.
    pub open spec fn shown_second(self) -> int {
        self.second + (self.nanosecond as int) / 1_000_000_000
    }

    /// The milliseconds as they are shown.
    pub open spec fn shown_millis(self) -> int {
        ((self.nanosecond as int) / 1_000_000) % 1000
    }

    /// Whether `self` is shown as an earlier millisecond than `other`: the
    /// fields that a stamp shows, compared from the year down.
    pub open spec fn shown_before(self, other: UtcTime) -> bool {
        ||| self.year < other.year
        ||| self.year == other.year && self.month < other.month
        ||| self.year == other.year && self.month == other.month && self.day < other.day
        ||| self.year == other.year && self.month == other.month && self.day == other.day
            && self.hour < other.hour
        ||| self.year == other.year && self.month == other.month && self.day == other.day
            && self.hour == other.hour && self.minute < other.minute
        ||| self.year == other.year && self.month == other.month && self.day == other.day
            && self.hour == other.hour && self.minute == other.minute && self.shown_second()
            < other.shown_second()
        ||| self.year == other.year && self.month == other.month && self.day == other.day
            && self.hour == other.hour && self.minute == other.minute && self.shown_second()
            == other.shown_second() && self.shown_millis() < other.shown_millis()
    }
}

/// The first year of the calendar as `chrono` holds it.
pub const FIRST_YEAR: i32 = -262_143;

/// The last year of the calendar as `chrono` holds it.
pub const LAST_YEAR: i32 = 262_142;

/// Whether a year of the Gregorian calendar, carried back and forth without
/// end, has a 29th of February.
pub open spec fn is_leap_year(year: int) -> bool {
    year % 4 == 0 && (year % 100 != 0 || year % 400 == 0)
}

/// The number of days of a month.
pub open spec fn days_in_month(year: int, month: int) -> int {
    if month == 2 {
        if is_leap_year(year) {
            29
        } else {
            28
        }
    } else if month == 4 || month == 6 || month == 9 || month == 11 {
        30
    } else {
        31
    }
}

/// The character of a decimal digit.
pub open spec fn digit(d: int) -> char {
    if d == 0 {
        '0'
    } else if d == 1 {
        '1'
    } else if d == 2 {
        '2'
    } else if d == 3 {
        '3'
    } else if d == 4 {
        '4'
    } else if d == 5 {
        '5'
    } else if d == 6 {
        '6'
    } else if d == 7 {
        '7'
    } else if d == 8 {
        '8'
    } else {
        '9'
    }
}

/// `n` in two digits.
pub open spec fn two_digits(n: int) -> Seq<char> {
    seq![digit(n / 10), digit(n % 10)]
}

/// `n` in three digits.
pub open spec fn three_digits(n: int) -> Seq<char> {
    seq![digit(n / 100), digit((n / 10) % 10), digit(n % 10)]
}

/// `n` in four digits.
pub open spec fn four_digits(n: int) -> Seq<char> {
    seq![digit(n / 1000), digit((n / 100) % 10), digit((n / 10) % 10), digit(n % 10)]
}

/// `n` in as many digits as it takes.
pub open spec fn decimal(n: nat) -> Seq<char>
    decreases n,
{
    if n < 10 {
        seq![digit(n as int)]
    } else {
        decimal(n / 10).push(digit((n % 10) as int))
    }
}

/// The year as a stamp shows it: four digits from 0 to 9999; outside that
/// range a sign, and then at least four digits.
pub open spec fn year_seq(year: int) -> Seq<char> {
    if 0 <= year <= 9999 {
        four_digits(year)
    } else {
        let sign = if year < 0 {
            '-'
        } else {
            '+'
        };
        let size = if year < 0 {
            -year
        } else {
            year
        };
        if size <= 9999 {
            seq![sign] + four_digits(size)
        } else {
            seq![sign] + decimal(size as nat)
        }
    }
}

/// The stamp of a time: `YYYYMMDD_HHMMSS.mmm`.
pub open spec fn stamp_seq(t: UtcTime) -> Seq<char> {
    year_seq(t.year as int) + two_digits(t.month as int) + two_digits(t.day as int) + seq!['_']
        + two_digits(t.hour as int) + two_digits(t.minute as int) + two_digits(t.shown_second())
        + seq!['.'] + three_digits(t.shown_millis())
}

/// Whether `a` sorts before `b`: at the first place where they differ, `a`
/// has ended or holds the smaller character.
pub open spec fn sorts_before(a: Seq<char>, b: Seq<char>) -> bool {
    exists|k: int| differ_first_at(a, b, k)
}

/// `a` and `b` agree before index `k`, and there `a` has ended while `b` goes
/// on, or holds the smaller character.
pub open spec fn differ_first_at(a: Seq<char>, b: Seq<char>, k: int) -> bool {
    &&& 0 <= k <= a.len()
    &&& k < b.len()
    &&& forall|j: int| 0 <= j < k ==> a[j] == b[j]
    &&& k < a.len() ==> (a[k] as u32) < (b[k] as u32)
}

/// `std::time::SystemTime`, carried from the clock to the reading of it.
#[verifier::external_type_specification]
#[verifier::external_body]
pub struct ExSystemTime(std::time::SystemTime);

/// The UTC date and time that `chrono` gives for a Unix timestamp: `secs`
/// seconds since the start of 1970, and `nanos` nanoseconds into the second.
/// `None` where the timestamp is out of `chrono`'s range.
pub uninterp spec fn utc_of_timestamp(secs: i64, nanos: u32) -> Option<UtcTime>;

/// What the system clock shows now.
///
/// Trusted: `std::time::SystemTime::now` returns a reading of the clock;
/// nothing is claimed of it.
#[verifier::external_body]
fn system_now() -> std::time::SystemTime {
    std::time::SystemTime::now()
}

/// The whole seconds and the nanoseconds from the start of 1970 to `at`, or
/// `None` where `at` lies before it.
///
/// Trusted: `SystemTime::duration_since` returns the time that has passed
/// since the start of 1970, or an error; nothing is claimed of the numbers.
#[verifier::external_body]
fn since_unix_epoch(at: &std::time::SystemTime) -> Option<(u64, u32)> {
    match at.duration_since(std::time::UNIX_EPOCH) {
        Ok(d) => Some((d.as_secs(), d.subsec_nanos())),
        Err(_) => None,
    }
}

/// The UTC date and time of a Unix timestamp.
///
/// Trusted: the fields are those that `chrono` reports for
/// `chrono::DateTime::from_timestamp(secs, nanos)`, and `None` where it
/// returns none. They depend on the two numbers alone, and each is within the
/// range that `chrono` documents for it; a leap second only follows second 59.
/// A timestamp of the years 1970 to 9999, with its nanoseconds below a whole
/// second, is in `chrono`'s range and is given a date.
#[verifier::external_body]
fn utc_from_timestamp(secs: i64, nanos: u32) -> (r: Option<UtcTime>)
    ensures
        r == utc_of_timestamp(secs, nanos),
        r matches Some(t) ==> t.wf(),
        0 <= secs <= LAST_SECOND_OF_9999 && nanos < 1_000_000_000 ==> r is Some,
{
    match chrono::DateTime::from_timestamp(secs, nanos) {
        Some(at) => Some(
            UtcTime {
                year: at.year(),
                month: at.month(),
                day: at.day(),
                hour: at.hour(),
                minute: at.minute(),
                second: at.second(),
                nanosecond: at.nanosecond(),
            },
        ),
        None => None,
    }
}

impl UtcTime {
    /// Whether the fields are a date and a time.
    pub fn is_valid(&self) -> (b: bool)
        ensures
            b == self.wf(),
    {
        if self.year < FIRST_YEAR || self.year > LAST_YEAR || self.month < 1 || self.month > 12 {
            return false;
        }
        let leap: bool = self.year % 4 == 0 && (self.year % 100 != 0 || self.year % 400 == 0);
        let days: u32 = if self.month == 2 {
            if leap {
                29
            } else {
                28
            }
        } else if self.month == 4 || self.month == 6 || self.month == 9 || self.month == 11 {
            30
        } else {
            31
        };
        assert(leap == is_leap_year(self.year as int)) by {
            let y = self.year as int;
            assert((self.year % 4 == 0) == (y % 4 == 0));
            assert((self.year % 100 == 0) == (y % 100 == 0));
            assert((self.year % 400 == 0) == (y % 400 == 0));
        }
        1 <= self.day && self.day <= days && self.hour <= 23 && self.minute <= 59 && self.second
            <= 59 && self.nanosecond < 2_000_000_000 && (self.nanosecond < 1_000_000_000
            || self.second == 59)
    }

    /// A time from its fields, where every field is in range.
    pub fn new(
        year: i32,
        month: u32,
        day: u32,
        hour: u32,
        minute: u32,
        second: u32,
        nanosecond: u32,
    ) -> (r: Option<UtcTime>)
        ensures
            match r {
                Some(t) => t.wf() && t == (UtcTime {
                    year,
                    month,
                    day,
                    hour,
                    minute,
                    second,
                    nanosecond,
                }),
                None => !(UtcTime { year, month, day, hour, minute, second, nanosecond }).wf(),
            },
    {
        let t = UtcTime { year, month, day, hour, minute, second, nanosecond };
        if t.is_valid() {
            Some(t)
        } else {
            None
        }
    }

    /// The UTC date and time of a Unix timestamp, where it is in range.
    pub fn from_timestamp(secs: i64, nanos: u32) -> (r: Option<UtcTime>)
        ensures
            r == utc_of_timestamp(secs, nanos),
            r matches Some(t) ==> t.wf(),
            0 <= secs <= LAST_SECOND_OF_9999 && nanos < 1_000_000_000 ==> r is Some,
    {
        utc_from_timestamp(secs, nanos)
    }

    /// The current UTC date and time: what `from_unix_reading` makes of
    /// the reading that the system clock gives.
    pub fn now() -> (r: Option<UtcTime>)
        ensures
            exists|reading: Option<(u64, u32)>| r == #[trigger] utc_of_reading(reading),
            r matches Some(t) ==> t.wf(),
    {
        let at = system_now();
        let reading = since_unix_epoch(&at);
        UtcTime::from_unix_reading(reading)
    }

    /// The UTC date and time of a reading of the clock: of the whole seconds
    /// and the nanoseconds since the start of 1970, where the clock gave them.
    /// There is none for a clock that stands before 1970, nor for a reading
    /// beyond the range of dates; a reading of the years 1970 to 9999 always
    /// has one.
    pub fn from_unix_reading(reading: Option<(u64, u32)>) -> (r: Option<UtcTime>)
        ensures
            r == utc_of_reading(reading),
            r matches Some(t) ==> t.wf(),
            reading matches Some(pair) && pair.0 <= LAST_SECOND_OF_9999 && pair.1 < 1_000_000_000
                ==> r is Some,
    {
        match reading {
            Some(pair) => {
                if pair.0 <= 0x7fff_ffff_ffff_ffff {
                    utc_from_timestamp(pair.0 as i64, pair.1)
                } else {
                    None
                }
            },
            None => None,
        }
    }
}

/// The Unix timestamp of the last second of the year 9999.
pub const LAST_SECOND_OF_9999: i64 = 253_402_300_799;

/// The date and time that a reading of the clock stands for: that of the
/// Unix timestamp it holds, and none where the clock gave no reading or one
/// that is no timestamp.
pub open spec fn utc_of_reading(reading: Option<(u64, u32)>) -> Option<UtcTime> {
    match reading {
        Some(pair) => if pair.0 <= i64::MAX {
            utc_of_timestamp(pair.0 as i64, pair.1)
        } else {
            None
        },
        None => None,
    }
}

/// The stamp that `chrono` writes for the date and time of the given fields,
/// or `None` where it does not take them for a date and a time.
///
/// Trusted: `chrono::NaiveDate::from_ymd_opt` takes every date of the
/// calendar from the first year to the last, and `and_hms_nano_opt` every time
/// of the clock, a leap second after second 59 included. The text is what
/// `format` writes for `%Y%m%d_%H%M%S%.3f`: the year in four digits, or with
/// a sign and at least four digits outside 0 to 9999, then month, day, hour,
/// minute and second in two digits each, and the milliseconds in three.
#[verifier::external_body]
fn chrono_stamp(t: &UtcTime) -> (r: Option<String>)
    ensures
        t.wf() ==> r is Some,
        r matches Some(stamp) ==> stamp@ == stamp_seq(*t),
{
    let date = chrono::NaiveDate::from_ymd_opt(t.year, t.month, t.day)?;
    let at = date.and_hms_nano_opt(t.hour, t.minute, t.second, t.nanosecond)?;
    Some(at.format("%Y%m%d_%H%M%S%.3f").to_string())
}

/// The stamp of `t`: its date and time as `YYYYMMDD_HHMMSS.mmm`.
pub fn format_stamp(t: &UtcTime) -> (r: String)
    requires
        t.wf(),
    ensures
        r@ == stamp_seq(*t),
{
    match chrono_stamp(t) {
        Some(stamp) => stamp,
        None => {
            assert(false);
            String::new()
        },
    }
}

/// Two texts that share a beginning, then hold two runs of which the first
/// has the smaller character at the first place where the runs differ, sort
/// in the order of those runs, whatever follows.
pub proof fn lemma_sorts_before_within(
    head: Seq<char>,
    run_a: Seq<char>,
    run_b: Seq<char>,
    tail_a: Seq<char>,
    tail_b: Seq<char>,
    k: int,
)
    requires
        0 <= k < run_a.len(),
        k < run_b.len(),
        forall|j: int| 0 <= j < k ==> run_a[j] == run_b[j],
        (run_a[k] as u32) < (run_b[k] as u32),
    ensures
        sorts_before(head + run_a + tail_a, head + run_b + tail_b),
{
    let a = head + run_a + tail_a;
    let b = head + run_b + tail_b;
    let at = head.len() + k;
    assert forall|j: int| 0 <= j < at implies a[j] == b[j] by {
        if j >= head.len() {
            assert(a[j] == run_a[j - head.len()]);
            assert(b[j] == run_b[j - head.len()]);
        }
    }
    assert(a[at] == run_a[k]);
    assert(b[at] == run_b[k]);
    assert(differ_first_at(a, b, at));
}

/// The place where the two-digit forms of `x` and `y` first differ.
spec fn place_of_two(x: int, y: int) -> int {
    if x / 10 != y / 10 {
        0
    } else {
        1
    }
}

/// The place where the three-digit forms of `x` and `y` first differ.
spec fn place_of_three(x: int, y: int) -> int {
    if x / 100 != y / 100 {
        0
    } else if (x / 10) % 10 != (y / 10) % 10 {
        1
    } else {
        2
    }
}

/// The place where the four-digit forms of `x` and `y` first differ.
spec fn place_of_four(x: int, y: int) -> int {
    if x / 1000 != y / 1000 {
        0
    } else if (x / 100) % 10 != (y / 100) % 10 {
        1
    } else if (x / 10) % 10 != (y / 10) % 10 {
        2
    } else {
        3
    }
}

/// A smaller digit has the smaller character.
proof fn lemma_digit_order(d: int, e: int)
    requires
        0 <= d < e <= 9,
    ensures
        (digit(d) as u32) < (digit(e) as u32),
{
}

/// Of two numbers below a hundred, the smaller has the two-digit form that
/// holds the smaller digit where the forms first differ.
proof fn lemma_two_digits_order(x: int, y: int)
    requires
        0 <= x < y < 100,
    ensures
        forall|j: int| 0 <= j < place_of_two(x, y) ==> two_digits(x)[j] == two_digits(y)[j],
        (two_digits(x)[place_of_two(x, y)] as u32) < (two_digits(y)[place_of_two(x, y)] as u32),
{
    if x / 10 != y / 10 {
        assert(0 <= x / 10 < y / 10 <= 9);
        lemma_digit_order(x / 10, y / 10);
    } else {
        assert(0 <= x % 10 < y % 10 <= 9);
        lemma_digit_order(x % 10, y % 10);
    }
}

/// Of two numbers below a thousand, the smaller has the three-digit form
/// that holds the smaller digit where the forms first differ.
proof fn lemma_three_digits_order(x: int, y: int)
    requires
        0 <= x < y < 1000,
    ensures
        forall|j: int|
            0 <= j < place_of_three(x, y) ==> three_digits(x)[j] == three_digits(y)[j],
        (three_digits(x)[place_of_three(x, y)] as u32) < (three_digits(y)[place_of_three(
            x,
            y,
        )] as u32),
{
    let xt = x / 10;
    let yt = y / 10;
    assert(x / 100 == xt / 10 && y / 100 == yt / 10);
    if x / 100 != y / 100 {
        assert(0 <= x / 100 < y / 100 <= 9);
        lemma_digit_order(x / 100, y / 100);
    } else if xt % 10 != yt % 10 {
        assert(xt <= yt);
        assert(0 <= xt % 10 < yt % 10 <= 9);
        lemma_digit_order(xt % 10, yt % 10);
    } else {
        assert(xt == yt);
        assert(0 <= x % 10 < y % 10 <= 9);
        lemma_digit_order(x % 10, y % 10);
    }
}

/// Of two numbers below ten thousand, the smaller has the four-digit form
/// that holds the smaller digit where the forms first differ.
proof fn lemma_four_digits_order(x: int, y: int)
    requires
        0 <= x < y < 10000,
    ensures
        forall|j: int| 0 <= j < place_of_four(x, y) ==> four_digits(x)[j] == four_digits(y)[j],
        (four_digits(x)[place_of_four(x, y)] as u32) < (four_digits(y)[place_of_four(x, y)] as u32),
{
    let xt = x / 10;
    let yt = y / 10;
    let xh = x / 100;
    let yh = y / 100;
    assert(xh == xt / 10 && yh == yt / 10);
    assert(x / 1000 == xh / 10 && y / 1000 == yh / 10);
    if x / 1000 != y / 1000 {
        assert(0 <= x / 1000 < y / 1000 <= 9);
        lemma_digit_order(x / 1000, y / 1000);
    } else if xh % 10 != yh % 10 {
        assert(xh <= yh);
        assert(0 <= xh % 10 < yh % 10 <= 9);
        lemma_digit_order(xh % 10, yh % 10);
    } else if xt % 10 != yt % 10 {
        assert(xh == yh);
        assert(xt <= yt);
        assert(0 <= xt % 10 < yt % 10 <= 9);
        lemma_digit_order(xt % 10, yt % 10);
    } else {
        assert(xh == yh);
        assert(xt == yt);
        assert(0 <= x % 10 < y % 10 <= 9);
        lemma_digit_order(x % 10, y % 10);
    }
}

/// Stamps sort as the times they show: of two times whose years are written
/// with four digits, the one shown as the earlier millisecond has the stamp
/// that sorts first, and so has every text that begins with it.
pub proof fn lemma_stamps_sort_by_time(
    a: UtcTime,
    b: UtcTime,
    tail_a: Seq<char>,
    tail_b: Seq<char>,
)
    requires
        a.wf(),
        b.wf(),
        a.four_digit_year(),
        b.four_digit_year(),
        a.shown_before(b),
    ensures
        sorts_before(stamp_seq(a) + tail_a, stamp_seq(b) + tail_b),
{
    let ya = four_digits(a.year as int);
    let yb = four_digits(b.year as int);
    let ma = two_digits(a.month as int);
    let mb = two_digits(b.month as int);
    let da = two_digits(a.day as int);
    let db = two_digits(b.day as int);
    let ha = two_digits(a.hour as int);
    let hb = two_digits(b.hour as int);
    let ia = two_digits(a.minute as int);
    let ib = two_digits(b.minute as int);
    let sa = two_digits(a.shown_second());
    let sb = two_digits(b.shown_second());
    let fa = three_digits(a.shown_millis());
    let fb = three_digits(b.shown_millis());
    let bar = seq!['_'];
    let dot = seq!['.'];
    let whole_a = stamp_seq(a) + tail_a;
    let whole_b = stamp_seq(b) + tail_b;
    if a.year != b.year {
        lemma_four_digits_order(a.year as int, b.year as int);
        let head = Seq::<char>::empty();
        let rest_a = ma + da + bar + ha + ia + sa + dot + fa + tail_a;
        let rest_b = mb + db + bar + hb + ib + sb + dot + fb + tail_b;
        lemma_sorts_before_within(
            head,
            ya,
            yb,
            rest_a,
            rest_b,
            place_of_four(a.year as int, b.year as int),
        );
        assert(whole_a =~= head + ya + rest_a);
        assert(whole_b =~= head + yb + rest_b);
    } else if a.month != b.month {
        lemma_two_digits_order(a.month as int, b.month as int);
        let head = ya;
        let rest_a = da + bar + ha + ia + sa + dot + fa + tail_a;
        let rest_b = db + bar + hb + ib + sb + dot + fb + tail_b;
        lemma_sorts_before_within(
            head,
            ma,
            mb,
            rest_a,
            rest_b,
            place_of_two(a.month as int, b.month as int),
        );
        assert(whole_a =~= head + ma + rest_a);
        assert(whole_b =~= head + mb + rest_b);
    } else if a.day != b.day {
        lemma_two_digits_order(a.day as int, b.day as int);
        let head = ya + ma;
        let rest_a = bar + ha + ia + sa + dot + fa + tail_a;
        let rest_b = bar + hb + ib + sb + dot + fb + tail_b;
        lemma_sorts_before_within(
            head,
            da,
            db,
            rest_a,
            rest_b,
            place_of_two(a.day as int, b.day as int),
        );
        assert(whole_a =~= head + da + rest_a);
        assert(whole_b =~= head + db + rest_b);
    } else if a.hour != b.hour {
        lemma_two_digits_order(a.hour as int, b.hour as int);
        let head = ya + ma + da + bar;
        let rest_a = ia + sa + dot + fa + tail_a;
        let rest_b = ib + sb + dot + fb + tail_b;
        lemma_sorts_before_within(
            head,
            ha,
            hb,
            rest_a,
            rest_b,
            place_of_two(a.hour as int, b.hour as int),
        );
        assert(whole_a =~= head + ha + rest_a);
        assert(whole_b =~= head + hb + rest_b);
    } else if a.minute != b.minute {
        lemma_two_digits_order(a.minute as int, b.minute as int);
        let head = ya + ma + da + bar + ha;
        let rest_a = sa + dot + fa + tail_a;
        let rest_b = sb + dot + fb + tail_b;
        lemma_sorts_before_within(
            head,
            ia,
            ib,
            rest_a,
            rest_b,
            place_of_two(a.minute as int, b.minute as int),
        );
        assert(whole_a =~= head + ia + rest_a);
        assert(whole_b =~= head + ib + rest_b);
    } else if a.shown_second() != b.shown_second() {
        lemma_two_digits_order(a.shown_second(), b.shown_second());
        let head = ya + ma + da + bar + ha + ia;
        let rest_a = dot + fa + tail_a;
        let rest_b = dot + fb + tail_b;
        lemma_sorts_before_within(
            head,
            sa,
            sb,
            rest_a,
            rest_b,
            place_of_two(a.shown_second(), b.shown_second()),
        );
        assert(whole_a =~= head + sa + rest_a);
        assert(whole_b =~= head + sb + rest_b);
    } else {
        lemma_three_digits_order(a.shown_millis(), b.shown_millis());
        let head = ya + ma + da + bar + ha + ia + sa + dot;
        lemma_sorts_before_within(
            head,
            fa,
            fb,
            tail_a,
            tail_b,
            place_of_three(a.shown_millis(), b.shown_millis()),
        );
        assert(whole_a =~= head + fa + tail_a);
        assert(whole_b =~= head + fb + tail_b);
    }
}

/// Whether `self` comes before `other` in time: the fields compared from the
/// year down to the nanosecond.
pub open spec fn earlier(a: UtcTime, b: UtcTime) -> bool {
    ||| a.year < b.year
    ||| a.year == b.year && a.month < b.month
    ||| a.year == b.year && a.month == b.month && a.day < b.day
    ||| a.year == b.year && a.month == b.month && a.day == b.day && a.hour < b.hour
    ||| a.year == b.year && a.month == b.month && a.day == b.day && a.hour == b.hour && a.minute
        < b.minute
    ||| a.year == b.year && a.month == b.month && a.day == b.day && a.hour == b.hour && a.minute
        == b.minute && a.second < b.second
    ||| a.year == b.year && a.month == b.month && a.day == b.day && a.hour == b.hour && a.minute
        == b.minute && a.second == b.second && a.nanosecond < b.nanosecond
}

/// A stamp never runs against time: of two times with four-digit years, the
/// earlier one has the same stamp as the later or one that sorts before it.
pub proof fn lemma_stamp_follows_time(a: UtcTime, b: UtcTime)
    requires
        a.wf(),
        b.wf(),
        a.four_digit_year(),
        b.four_digit_year(),
        earlier(a, b),
    ensures
        stamp_seq(a) == stamp_seq(b) || sorts_before(stamp_seq(a), stamp_seq(b)),
{
    if a.shown_before(b) {
        lemma_stamps_sort_by_time(a, b, Seq::empty(), Seq::empty());
        assert(stamp_seq(a) + Seq::<char>::empty() =~= stamp_seq(a));
        assert(stamp_seq(b) + Seq::<char>::empty() =~= stamp_seq(b));
    } else {
        let na = a.nanosecond as int;
        let nb = b.nanosecond as int;
        assert(a.second == b.second);
        assert(na / 1_000_000_000 <= nb / 1_000_000_000);
        assert(a.shown_second() == b.shown_second());
        assert(na / 1_000_000 <= nb / 1_000_000);
        assert(a.shown_millis() == b.shown_millis());
        assert(stamp_seq(a) =~= stamp_seq(b));
    }
}

} // verus!
