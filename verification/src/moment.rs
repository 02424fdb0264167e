//! Points in time, as nanoseconds since the Unix epoch: their calendar fields in UTC, the value
//! of a `datetime-local` input, and RFC 3339 timestamps.
use crate::text::{
    all_digits, count_char, decimal, digits_value, is_digit, law_decimal_reads_back,
    law_occurrences_count_characters, law_zero_padding_keeps_the_number, occurrences, trim,
    trimmed, white_space, zero_padded,
    zero_padded_text,
};
use time::format_description::well_known::Rfc3339;
use time::OffsetDateTime;
use vstd::prelude::*;
use vstd::string::*;

verus! {

/// Nanoseconds in a second.
pub const SECOND: i128 = 1_000_000_000;

/// Nanoseconds in a day.
pub const DAY: i128 = 86_400_000_000_000;

/// Days from the first day of year 1 to the Unix epoch.
pub const EPOCH_DAY: i128 = 719_162;

/// The calendar fields of a point in time, in UTC and in the proleptic Gregorian calendar.
#[derive(Clone, Copy, Debug, PartialEq, Eq, Structural)]
pub struct UtcFields {
    pub year: i32,
    pub month: u8,
    pub day: u8,
    pub hour: u8,
    pub minute: u8,
    pub second: u8,
    pub nanosecond: u32,
}

/// Whether a year has a leap day.
pub open spec fn leap_year(y: int) -> bool {
    y % 4 == 0 && (y % 100 != 0 || y % 400 == 0)
}

/// The number of days of a month.
pub open spec fn days_in_month(y: int, m: int) -> int {
    if m == 2 {
        if leap_year(y) {
            29
        } else {
            28
        }
    } else if m == 4 || m == 6 || m == 9 || m == 11 {
        30
    } else {
        31
    }
}

/// The number of days of a year before a month.
pub open spec fn days_before_month(y: int, m: int) -> int
    decreases m,
{
    if m <= 1 {
        0
    } else {
        days_before_month(y, m - 1) + days_in_month(y, m - 1)
    }
}

/// The number of days from the first day of year 1 to the first day of a year.
pub open spec fn days_before_year(y: int) -> int {
    365 * (y - 1) + (y - 1) / 4 - (y - 1) / 100 + (y - 1) / 400
}

impl UtcFields {
    /// Whether the fields are a date and time of the years -9999 to 9999.
    pub open spec fn valid(self) -> bool {
        &&& -9999 <= self.year <= 9999
        &&& 1 <= self.month <= 12
        &&& 1 <= self.day <= days_in_month(self.year as int, self.month as int)
        &&& self.hour < 24
        &&& self.minute < 60
        &&& self.second < 60
        &&& self.nanosecond < SECOND
    }

    /// The days from the Unix epoch to this date.
    pub open spec fn unix_day(self) -> int {
        days_before_year(self.year as int) + days_before_month(
            self.year as int,
            self.month as int,
        ) + self.day - 1 - EPOCH_DAY
    }

    /// The nanoseconds from midnight.
    pub open spec fn nanos_of_day(self) -> int {
        (self.hour * 3600 + self.minute * 60 + self.second) * SECOND + self.nanosecond
    }

    /// The nanoseconds from the Unix epoch.
    pub open spec fn unix_nanos(self) -> int {
        self.unix_day() * DAY + self.nanos_of_day()
    }

    /// The start of the minute.
    pub open spec fn minute_start(self) -> UtcFields {
        UtcFields { second: 0, nanosecond: 0, ..self }
    }
}

/// The points in time of the years -9999 to 9999.
pub open spec fn representable(nanos: int) -> bool {
    (days_before_year(-9999) - EPOCH_DAY) * DAY <= nanos < (days_before_year(10000) - EPOCH_DAY)
        * DAY
}

/// A year with at least four characters, the sign of a year before year 0 included.
pub open spec fn year_text(y: int) -> Seq<char> {
    if y < 0 {
        seq!['-'] + zero_padded((-y) as nat, 3)
    } else {
        zero_padded(y as nat, 4)
    }
}

/// The value of a `datetime-local` input: date, a `T`, hour and minute.
pub open spec fn input_text(f: UtcFields) -> Seq<char> {
    year_text(f.year as int) + seq!['-'] + zero_padded(f.month as nat, 2) + seq!['-'] + zero_padded(
        f.day as nat,
        2,
    ) + seq!['T'] + zero_padded(f.hour as nat, 2) + seq![':'] + zero_padded(f.minute as nat, 2)
}

/// Decimal digits without the zeros at their end.
pub open spec fn without_trailing_zeros(s: Seq<char>) -> Seq<char>
    decreases s.len(),
{
    if s.len() > 0 && s.last() == '0' {
        without_trailing_zeros(s.drop_last())
    } else {
        s
    }
}

/// The RFC 3339 timestamp: the second behind the minute, then its fraction if there is one, and
/// the offset of UTC.
pub open spec fn rfc3339_text(f: UtcFields) -> Seq<char> {
    let fraction = if f.nanosecond == 0 {
        Seq::empty()
    } else {
        seq!['.'] + without_trailing_zeros(zero_padded(f.nanosecond as nat, 9))
    };
    input_text(f) + seq![':'] + zero_padded(f.second as nat, 2) + fraction + seq!['Z']
}

/// Whether a text is a timestamp that `OffsetDateTime::parse` reads as RFC 3339.
pub uninterp spec fn rfc3339_accepted(s: Seq<char>) -> bool;

/// Asks `OffsetDateTime::parse` whether a text is an RFC 3339 timestamp. Trusted: the answer
/// depends on the text alone, and the timestamp of every date and time of the years 0 to 9999 is
/// accepted. Which other texts are accepted is left unsaid.
#[verifier::external_body]
fn parses_as_rfc3339(s: &str) -> (r: bool)
    ensures
        r == rfc3339_accepted(s@),
        forall|f: UtcFields|
            f.valid() && f.year >= 0 && s@ == #[trigger] rfc3339_text(f) ==> r,
{
    OffsetDateTime::parse(s, &Rfc3339).is_ok()
}

/// Reads the calendar fields of a point in time from `OffsetDateTime::from_unix_timestamp_nanos`
/// and the accessors of its result. Trusted: within the years -9999 to 9999 they are the fields
/// of that point in time, and outside there are none.
#[verifier::external_body]
fn utc_fields(nanos: i128) -> (r: Option<UtcFields>)
    ensures
        match r {
            Some(f) => f.valid() && f.unix_nanos() == nanos,
            None => !representable(nanos as int),
        },
{
    OffsetDateTime::from_unix_timestamp_nanos(nanos).ok().map(
        |t|
            UtcFields {
                year: t.year(),
                month: u8::from(t.month()),
                day: t.day(),
                hour: t.hour(),
                minute: t.minute(),
                second: t.second(),
                nanosecond: t.nanosecond(),
            },
    )
}

/// Formats a point in time with `OffsetDateTime::format` as RFC 3339. Trusted: in the years 0 to
/// 9999 the result is the timestamp in UTC, and otherwise there is none.
#[verifier::external_body]
fn format_rfc3339(nanos: i128) -> (r: Option<String>)
    ensures
        forall|f: UtcFields| #[trigger]
            f.valid() && f.unix_nanos() == nanos ==> r.deep_view() == (if f.year >= 0 {
                Some(rfc3339_text(f))
            } else {
                None
            }),
        !representable(nanos as int) ==> r is None,
{
    OffsetDateTime::from_unix_timestamp_nanos(nanos).ok().and_then(|t| t.format(&Rfc3339).ok())
}

proof fn lemma_year_length(y: int)
    ensures
        days_before_year(y + 1) == days_before_year(y) + 365 + (if leap_year(y) {
            1int
        } else {
            0int
        }),
{
    assert(y / 4 == (y - 1) / 4 + (if y % 4 == 0 {
        1int
    } else {
        0int
    }));
    assert(y / 100 == (y - 1) / 100 + (if y % 100 == 0 {
        1int
    } else {
        0int
    }));
    assert(y / 400 == (y - 1) / 400 + (if y % 400 == 0 {
        1int
    } else {
        0int
    }));
    assert(y % 100 == 0 ==> y % 4 == 0);
    assert(y % 400 == 0 ==> y % 100 == 0);
}

proof fn lemma_days_before_year_grow(a: int, b: int)
    requires
        a <= b,
    ensures
        days_before_year(a) <= days_before_year(b),
    decreases b - a,
{
    if a < b {
        lemma_year_length(b - 1);
        lemma_days_before_year_grow(a, b - 1);
    }
}

proof fn lemma_days_before_month(y: int, m: int)
    requires
        1 <= m <= 12,
    ensures
        0 <= days_before_month(y, m),
        days_before_month(y, m) + days_in_month(y, m) <= 365 + (if leap_year(y) {
            1int
        } else {
            0int
        }),
        forall|k: int|
            1 <= k < m ==> #[trigger] days_before_month(y, k) + days_in_month(y, k)
                <= days_before_month(y, m),
{
    reveal_with_fuel(days_before_month, 13);
}

proof fn lemma_later_year_later_day(f: UtcFields, g: UtcFields)
    requires
        f.valid(),
        g.valid(),
        f.year < g.year,
    ensures
        f.unix_day() < g.unix_day(),
{
    let y = f.year as int;
    lemma_days_before_month(y, f.month as int);
    lemma_days_before_month(g.year as int, g.month as int);
    lemma_year_length(y);
    lemma_days_before_year_grow(y + 1, g.year as int);
}

proof fn lemma_later_month_later_day(f: UtcFields, g: UtcFields)
    requires
        f.valid(),
        g.valid(),
        f.year == g.year,
        f.month < g.month,
    ensures
        f.unix_day() < g.unix_day(),
{
    lemma_days_before_month(g.year as int, g.month as int);
    assert(days_before_month(f.year as int, f.month as int) + days_in_month(
        f.year as int,
        f.month as int,
    ) <= days_before_month(g.year as int, g.month as int));
}

proof fn lemma_same_time(f: UtcFields, g: UtcFields)
    requires
        f.valid(),
        g.valid(),
        f.unix_nanos() == g.unix_nanos(),
    ensures
        f.unix_day() == g.unix_day(),
        f.hour == g.hour && f.minute == g.minute && f.second == g.second && f.nanosecond
            == g.nanosecond,
{
    assert(0 <= f.nanos_of_day() < DAY);
    assert(0 <= g.nanos_of_day() < DAY);
}

/// A point in time has one date and time: valid fields with the same distance from the epoch are
/// the same fields.
pub proof fn law_fields_are_unique(f: UtcFields, g: UtcFields)
    requires
        f.valid(),
        g.valid(),
        f.unix_nanos() == g.unix_nanos(),
    ensures
        f == g,
{
    lemma_same_time(f, g);
    if f.year < g.year {
        lemma_later_year_later_day(f, g);
    } else if g.year < f.year {
        lemma_later_year_later_day(g, f);
    } else if f.month < g.month {
        lemma_later_month_later_day(f, g);
    } else if g.month < f.month {
        lemma_later_month_later_day(g, f);
    }
}

proof fn lemma_year_of_day(d: int, first: int, end: int) -> (y: int)
    requires
        first < end,
        days_before_year(first) <= d < days_before_year(end),
    ensures
        first <= y < end,
        days_before_year(y) <= d < days_before_year(y + 1),
    decreases end - first,
{
    if d < days_before_year(first + 1) {
        first
    } else {
        assert(first + 1 != end);
        lemma_year_of_day(d, first + 1, end)
    }
}

proof fn lemma_month_of_day(y: int, e: int) -> (m: int)
    requires
        0 <= e < 365 + (if leap_year(y) {
            1int
        } else {
            0int
        }),
    ensures
        1 <= m <= 12,
        days_before_month(y, m) <= e < days_before_month(y, m) + days_in_month(y, m),
{
    reveal_with_fuel(days_before_month, 13);
    if e < days_before_month(y, 2) {
        1
    } else if e < days_before_month(y, 3) {
        2
    } else if e < days_before_month(y, 4) {
        3
    } else if e < days_before_month(y, 5) {
        4
    } else if e < days_before_month(y, 6) {
        5
    } else if e < days_before_month(y, 7) {
        6
    } else if e < days_before_month(y, 8) {
        7
    } else if e < days_before_month(y, 9) {
        8
    } else if e < days_before_month(y, 10) {
        9
    } else if e < days_before_month(y, 11) {
        10
    } else if e < days_before_month(y, 12) {
        11
    } else {
        12
    }
}

/// Every point in time of the years -9999 to 9999 has a date and time.
pub proof fn law_every_moment_has_fields(nanos: int)
    requires
        representable(nanos),
    ensures
        exists|f: UtcFields| #[trigger] f.valid() && f.unix_nanos() == nanos,
{
    let day = nanos / (DAY as int);
    let time = nanos % (DAY as int);
    let d = day + EPOCH_DAY;
    let y = lemma_year_of_day(d, -9999, 10000);
    lemma_year_length(y);
    let e = d - days_before_year(y);
    let m = lemma_month_of_day(y, e);
    let seconds = time / (SECOND as int);
    let f = UtcFields {
        year: y as i32,
        month: m as u8,
        day: (e - days_before_month(y, m) + 1) as u8,
        hour: (seconds / 3600) as u8,
        minute: (seconds / 60 % 60) as u8,
        second: (seconds % 60) as u8,
        nanosecond: (time % (SECOND as int)) as u32,
    };
    assert(0 <= seconds < 86_400);
    assert(f.valid());
    assert(f.unix_day() == day);
    assert(f.nanos_of_day() == time);
}

/// Renders a point in time as the value of a `datetime-local` input, in UTC.
pub fn dt_to_input(nanos: i128) -> (r: String)
    requires
        representable(nanos as int),
    ensures
        exists|f: UtcFields| #[trigger]
            f.valid() && f.unix_nanos() == nanos && r@ == input_text(f),
        forall|f: UtcFields| #[trigger]
            f.valid() && f.unix_nanos() == nanos ==> r@ == input_text(f),
{
    let fields: Option<UtcFields> = utc_fields(nanos);
    let f: UtcFields = fields.unwrap();
    proof {
        assert forall|g: UtcFields| #[trigger] g.valid() && g.unix_nanos() == nanos implies g
            == f by {
            law_fields_are_unique(f, g);
        }
    }
    render_input(f)
}

/// Writes calendar fields as the value of a `datetime-local` input.
pub fn render_input(f: UtcFields) -> (r: String)
    requires
        f.year > i32::MIN,
    ensures
        r@ == input_text(f),
{
    proof {
        reveal_strlit("-");
        reveal_strlit("T");
        reveal_strlit(":");
        assert("-"@ =~= seq!['-'] && "T"@ =~= seq!['T'] && ":"@ =~= seq![':']);
    }
    let mut out: String = if f.year < 0 {
        let mut signed: String = "-".to_string();
        signed.append(zero_padded_text((-f.year) as u64, 3).as_str());
        signed
    } else {
        zero_padded_text(f.year as u64, 4)
    };
    out.append("-");
    out.append(zero_padded_text(f.month as u64, 2).as_str());
    out.append("-");
    out.append(zero_padded_text(f.day as u64, 2).as_str());
    out.append("T");
    out.append(zero_padded_text(f.hour as u64, 2).as_str());
    out.append(":");
    out.append(zero_padded_text(f.minute as u64, 2).as_str());
    out
}

/// The timestamp that a non-empty `datetime-local` value stands for: read as UTC, with zero
/// seconds if it has none.
pub open spec fn with_seconds_and_offset(t: Seq<char>) -> Seq<char> {
    if occurrences(t, ':') < 2 {
        t + seq![':', '0', '0'] + seq!['Z']
    } else {
        t + seq!['Z']
    }
}

/// The timestamp to try for a posted `datetime-local` value; a blank value has none.
pub open spec fn timestamp_candidate(s: Seq<char>) -> Option<Seq<char>> {
    if trimmed(s).len() == 0 {
        None
    } else {
        Some(with_seconds_and_offset(trimmed(s)))
    }
}

/// The timestamp of a posted `datetime-local` value, if its candidate is accepted.
pub open spec fn local_timestamp(s: Seq<char>) -> Option<Seq<char>> {
    match timestamp_candidate(s) {
        Some(c) => if rfc3339_accepted(c) {
            Some(c)
        } else {
            None
        },
        None => None,
    }
}

/// The timestamp to try for a posted `datetime-local` value.
pub fn candidate_timestamp(s: &str) -> (r: Option<String>)
    ensures
        r.deep_view() == timestamp_candidate(s@),
{
    let t: String = trim(s);
    if t.as_str().is_empty() {
        return None;
    }
    proof {
        reveal_strlit(":00");
        reveal_strlit("Z");
        assert(":00"@ =~= seq![':', '0', '0'] && "Z"@ =~= seq!['Z']);
    }
    let colons: usize = count_char(t.as_str(), ':');
    let mut out: String = t;
    if colons < 2 {
        out.append(":00");
    }
    out.append("Z");
    Some(out)
}

/// Keeps a candidate timestamp if it was accepted.
pub fn accepted_timestamp(candidate: String, accepted: bool) -> (r: Option<String>)
    ensures
        r == (if accepted {
            Some(candidate)
        } else {
            None
        }),
{
    if accepted {
        Some(candidate)
    } else {
        None
    }
}

proof fn lemma_occurrences_concat(a: Seq<char>, b: Seq<char>, c: char)
    ensures
        occurrences(a + b, c) == occurrences(a, c) + occurrences(b, c),
    decreases b.len(),
{
    if b.len() == 0 {
        assert(a + b =~= a);
    } else {
        lemma_occurrences_concat(a, b.drop_last(), c);
        assert((a + b).drop_last() =~= a + b.drop_last());
    }
}

proof fn lemma_digits_have_no(s: Seq<char>, c: char)
    requires
        all_digits(s),
        !is_digit(c),
    ensures
        occurrences(s, c) == 0,
    decreases s.len(),
{
    if s.len() > 0 {
        lemma_digits_have_no(s.drop_last(), c);
    }
}

proof fn lemma_zero_padded_digits(n: nat, width: nat)
    ensures
        all_digits(zero_padded(n, width)),
        zero_padded(n, width).len() > 0,
{
    law_decimal_reads_back(n);
}

proof fn lemma_no_space_to_trim(s: Seq<char>)
    requires
        s.len() > 0,
        !white_space(s.first()),
        !white_space(s.last()),
    ensures
        trimmed(s) == s,
{
}

proof fn lemma_input_colons(f: UtcFields)
    requires
        f.valid(),
        f.year >= 0,
    ensures
        occurrences(input_text(f), ':') == 1,
{
    let y = zero_padded(f.year as nat, 4);
    let mo = zero_padded(f.month as nat, 2);
    let d = zero_padded(f.day as nat, 2);
    let h = zero_padded(f.hour as nat, 2);
    let mi = zero_padded(f.minute as nat, 2);
    lemma_zero_padded_digits(f.year as nat, 4);
    lemma_zero_padded_digits(f.month as nat, 2);
    lemma_zero_padded_digits(f.day as nat, 2);
    lemma_zero_padded_digits(f.hour as nat, 2);
    lemma_zero_padded_digits(f.minute as nat, 2);
    lemma_digits_have_no(y, ':');
    lemma_digits_have_no(mo, ':');
    lemma_digits_have_no(d, ':');
    lemma_digits_have_no(h, ':');
    lemma_digits_have_no(mi, ':');
    reveal_with_fuel(occurrences, 2);
    lemma_occurrences_concat(y, seq!['-'], ':');
    lemma_occurrences_concat(y + seq!['-'], mo, ':');
    lemma_occurrences_concat(y + seq!['-'] + mo, seq!['-'], ':');
    lemma_occurrences_concat(y + seq!['-'] + mo + seq!['-'], d, ':');
    lemma_occurrences_concat(y + seq!['-'] + mo + seq!['-'] + d, seq!['T'], ':');
    lemma_occurrences_concat(y + seq!['-'] + mo + seq!['-'] + d + seq!['T'], h, ':');
    lemma_occurrences_concat(y + seq!['-'] + mo + seq!['-'] + d + seq!['T'] + h, seq![':'], ':');
    lemma_occurrences_concat(
        y + seq!['-'] + mo + seq!['-'] + d + seq!['T'] + h + seq![':'],
        mi,
        ':',
    );
}

/// The value that prefills the form, posted back unchanged, stands for the start of the minute
/// that it was rendered from. It has no white space around it.
pub proof fn law_prefill_posts_its_minute(f: UtcFields)
    requires
        f.valid(),
        f.year >= 0,
    ensures
        trimmed(input_text(f)) == input_text(f),
        timestamp_candidate(input_text(f)) == Some(rfc3339_text(f.minute_start())),
        f.minute_start().valid(),
        0 <= f.unix_nanos() - f.minute_start().unix_nanos() < 60 * SECOND,
{
    let y = zero_padded(f.year as nat, 4);
    let mi = zero_padded(f.minute as nat, 2);
    lemma_zero_padded_digits(f.year as nat, 4);
    lemma_zero_padded_digits(f.minute as nat, 2);
    let t = input_text(f);
    assert(t.first() == y.first());
    assert(t.last() == mi.last());
    assert(is_digit(y[0]) && is_digit(mi[mi.len() - 1]));
    lemma_no_space_to_trim(t);
    lemma_input_colons(f);
    assert(decimal(0) =~= seq!['0']);
    assert(zero_padded(0, 2) =~= seq!['0', '0']);
    assert(t + seq![':', '0', '0'] + seq!['Z'] =~= rfc3339_text(f.minute_start()));
}

/// A value without seconds, whatever white space is around it, stands for the start of its minute.
proof fn lemma_minute_value(s: Seq<char>, f: UtcFields)
    requires
        f.valid(),
        f.year >= 0,
        trimmed(s) == input_text(f),
    ensures
        timestamp_candidate(s) == Some(rfc3339_text(f.minute_start())),
        f.minute_start().valid(),
{
    law_prefill_posts_its_minute(f);
}

/// A value with seconds, whatever white space is around it, stands for its second and its fraction.
pub proof fn law_value_with_seconds_posts_its_moment(s: Seq<char>, f: UtcFields)
    requires
        f.valid(),
        f.year >= 0,
        trimmed(s) + seq!['Z'] == rfc3339_text(f),
    ensures
        timestamp_candidate(s) == Some(rfc3339_text(f)),
{
    let t = trimmed(s);
    let seconds = zero_padded(f.second as nat, 2);
    let start = input_text(f) + seq![':'] + seconds;
    let rest = rfc3339_text(f).skip(start.len() as int);
    lemma_input_colons(f);
    lemma_zero_padded_digits(f.second as nat, 2);
    lemma_digits_have_no(seconds, ':');
    reveal_with_fuel(occurrences, 2);
    lemma_occurrences_concat(input_text(f), seq![':'], ':');
    lemma_occurrences_concat(input_text(f) + seq![':'], seconds, ':');
    assert(rfc3339_text(f) =~= start + rest);
    lemma_occurrences_concat(start, rest, ':');
    lemma_occurrences_concat(t, seq!['Z'], ':');
    assert(occurrences(t, ':') >= 2);
    assert(t.len() > 0);
}

/// Converts a `datetime-local` value (with or without seconds) into an RFC 3339 timestamp,
/// reading it as UTC. A blank or unreadable value gives nothing.
pub fn datetime_local_to_rfc3339(s: &str) -> (r: Option<String>)
    ensures
        r.deep_view() == local_timestamp(s@),
        forall|f: UtcFields|
            f.valid() && f.year >= 0 && trimmed(s@) == #[trigger] input_text(f) ==> r.deep_view()
                == Some(rfc3339_text(f.minute_start())),
        forall|f: UtcFields|
            f.valid() && f.year >= 0 && trimmed(s@) + seq!['Z'] == #[trigger] rfc3339_text(f)
                ==> r.deep_view() == Some(rfc3339_text(f)),
{
    let candidate: Option<String> = candidate_timestamp(s);
    proof {
        assert forall|f: UtcFields|
            f.valid() && f.year >= 0 && trimmed(s@) == #[trigger] input_text(
                f,
            ) implies f.minute_start().valid() && timestamp_candidate(s@) == Some(
            rfc3339_text(f.minute_start()),
        ) by {
            lemma_minute_value(s@, f);
        }
        assert forall|f: UtcFields|
            f.valid() && f.year >= 0 && trimmed(s@) + seq!['Z'] == #[trigger] rfc3339_text(
                f,
            ) implies timestamp_candidate(s@) == Some(rfc3339_text(f)) by {
            law_value_with_seconds_posts_its_moment(s@, f);
        }
    }
    match candidate {
        Some(c) => {
            let accepted: bool = parses_as_rfc3339(c.as_str());
            accepted_timestamp(c, accepted)
        },
        None => None,
    }
}

/// The timestamp that stands in for a point in time that has none.
pub open spec fn epoch_text() -> Seq<char> {
    "1970-01-01T00:00:00Z"@
}

/// Uses a formatted timestamp, or the epoch where there is none.
pub fn timestamp_or_epoch(formatted: Option<String>) -> (r: String)
    ensures
        r@ == (match formatted {
            Some(t) => t@,
            None => epoch_text(),
        }),
{
    match formatted {
        Some(t) => t,
        None => "1970-01-01T00:00:00Z".to_string(),
    }
}

/// The RFC 3339 timestamp of a point in time.
pub fn timestamp(nanos: i128) -> (r: String)
    ensures
        forall|f: UtcFields| #[trigger]
            f.valid() && f.unix_nanos() == nanos ==> r@ == (if f.year >= 0 {
                rfc3339_text(f)
            } else {
                epoch_text()
            }),
        !representable(nanos as int) ==> r@ == epoch_text(),
{
    timestamp_or_epoch(format_rfc3339(nanos))
}

spec fn zeros(n: nat) -> Seq<char> {
    Seq::new(n, |i: int| '0')
}

proof fn lemma_field_widths(f: UtcFields)
    requires
        f.valid(),
        f.year >= 0,
    ensures
        zero_padded(f.year as nat, 4).len() == 4,
        zero_padded(f.month as nat, 2).len() == 2,
        zero_padded(f.day as nat, 2).len() == 2,
        zero_padded(f.hour as nat, 2).len() == 2,
        zero_padded(f.minute as nat, 2).len() == 2,
        zero_padded(f.second as nat, 2).len() == 2,
        zero_padded(f.nanosecond as nat, 9).len() == 9,
{
    reveal_with_fuel(decimal, 10);
}

proof fn lemma_trailing_zeros_back(s: Seq<char>)
    ensures
        without_trailing_zeros(s).len() <= s.len(),
        s == without_trailing_zeros(s) + zeros((s.len() - without_trailing_zeros(s).len()) as nat),
    decreases s.len(),
{
    if s.len() > 0 && s.last() == '0' {
        let t = s.drop_last();
        lemma_trailing_zeros_back(t);
        let w = without_trailing_zeros(t);
        assert(s =~= t.push('0'));
        assert(s =~= w + zeros((s.len() - w.len()) as nat));
    } else {
        assert(s =~= s + zeros(0));
    }
}

/// A timestamp says to the nanosecond which point in time it stands for: different dates and times
/// have different timestamps.
pub proof fn law_timestamps_tell_moments_apart(f: UtcFields, g: UtcFields)
    requires
        f.valid(),
        f.year >= 0,
        g.valid(),
        g.year >= 0,
        rfc3339_text(f) == rfc3339_text(g),
    ensures
        f == g,
{
    let s = rfc3339_text(f);
    let t = rfc3339_text(g);
    lemma_field_widths(f);
    lemma_field_widths(g);
    lemma_same_part(s, t, f.year as nat, g.year as nat, 0, 4);
    lemma_same_part(s, t, f.month as nat, g.month as nat, 5, 2);
    lemma_same_part(s, t, f.day as nat, g.day as nat, 8, 2);
    lemma_same_part(s, t, f.hour as nat, g.hour as nat, 11, 2);
    lemma_same_part(s, t, f.minute as nat, g.minute as nat, 14, 2);
    lemma_same_part(s, t, f.second as nat, g.second as nat, 17, 2);
    let a = zero_padded(f.nanosecond as nat, 9);
    let b = zero_padded(g.nanosecond as nat, 9);
    lemma_trailing_zeros_back(a);
    lemma_trailing_zeros_back(b);
    law_zero_padding_keeps_the_number(f.nanosecond as nat, 9);
    law_zero_padding_keeps_the_number(g.nanosecond as nat, 9);
    if f.nanosecond != 0 && g.nanosecond != 0 {
        assert(s.subrange(20, s.len() - 1) =~= without_trailing_zeros(a));
        assert(t.subrange(20, t.len() - 1) =~= without_trailing_zeros(b));
    } else if f.nanosecond != 0 {
        assert(s.len() > 20 && t.len() == 20);
    } else if g.nanosecond != 0 {
        assert(t.len() > 20 && s.len() == 20);
    }
}

proof fn lemma_same_part(s: Seq<char>, t: Seq<char>, m: nat, n: nat, start: int, width: nat)
    requires
        s == t,
        0 <= start,
        start + width <= s.len(),
        s.subrange(start, start + width) =~= zero_padded(m, width),
        t.subrange(start, start + width) =~= zero_padded(n, width),
    ensures
        m == n,
{
    law_zero_padding_keeps_the_number(m, width);
    law_zero_padding_keeps_the_number(n, width);
}

/// What is tried as a timestamp is the posted value without the white space around it, followed by
/// what it lacks: seconds if there is at most one colon, and always the offset of UTC. A blank
/// value is not tried, and what is tried becomes the timestamp exactly if it is accepted.
pub proof fn law_posted_values_are_completed(s: Seq<char>)
    ensures
        timestamp_candidate(s) is None <==> trimmed(s).len() == 0,
        timestamp_candidate(s) is Some ==> {
            let c = timestamp_candidate(s)->0;
            &&& trimmed(s).is_prefix_of(c)
            &&& c.last() == 'Z'
            &&& trimmed(s).to_multiset().count(':') >= 2 ==> c.len() == trimmed(s).len() + 1
            &&& trimmed(s).to_multiset().count(':') < 2 ==> c.len() == trimmed(s).len() + 4
                && c.subrange(trimmed(s).len() as int, c.len() - 1) == seq![':', '0', '0']
        },
        local_timestamp(s) is Some ==> local_timestamp(s) == timestamp_candidate(s)
            && rfc3339_accepted(local_timestamp(s)->0),
        local_timestamp(s) is None ==> timestamp_candidate(s) is None || !rfc3339_accepted(
            timestamp_candidate(s)->0,
        ),
{
    let t = trimmed(s);
    law_occurrences_count_characters(t, ':');
    if t.len() > 0 {
        let c = timestamp_candidate(s)->0;
        assert(c.subrange(0, t.len() as int) =~= t);
        if occurrences(t, ':') < 2 {
            assert(c.subrange(t.len() as int, c.len() - 1) =~= seq![':', '0', '0']);
        }
    }
}

/// The timestamp that stands in for a moment without one is that of the moment from which time is
/// counted.
pub proof fn law_stand_in_is_the_epoch(f: UtcFields)
    requires
        f.valid(),
        f.unix_nanos() == 0,
    ensures
        epoch_text() == rfc3339_text(f),
{
    let g = UtcFields {
        year: 1970,
        month: 1,
        day: 1,
        hour: 0,
        minute: 0,
        second: 0,
        nanosecond: 0,
    };
    assert(g.valid() && g.unix_nanos() == 0);
    law_fields_are_unique(f, g);
    reveal_with_fuel(decimal, 5);
    reveal_strlit("1970-01-01T00:00:00Z");
    assert(rfc3339_text(g) =~= "1970-01-01T00:00:00Z"@);
}

} // verus!
