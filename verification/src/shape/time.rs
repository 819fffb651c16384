//! Time-shaped predicates: ISO 8601 durations and datetimes, and the Windows
//! time-zone identifiers that recurrences accept.

use vstd::prelude::*;

use crate::text::{chars_of, in_list, is_digit, names, one_of};

verus! {

/// First position at or after `i` that holds no decimal digit.
pub open spec fn digits_end(e: Seq<char>, i: int) -> int
    decreases e.len() - i,
{
    if 0 <= i < e.len() && is_digit(e[i]) {
        digits_end(e, i + 1)
    } else {
        i
    }
}

/// Position after the number at `i`: digits, and a fraction after `.` or `,`
/// where there is one; both parts need a digit.
pub open spec fn amount_end(e: Seq<char>, i: int) -> Option<int> {
    let whole = digits_end(e, i);
    if whole <= i {
        None
    } else if whole < e.len() && (e[whole] == '.' || e[whole] == ',') {
        let fraction = digits_end(e, whole + 1);
        if fraction > whole + 1 {
            Some(fraction)
        } else {
            None
        }
    } else {
        Some(whole)
    }
}

/// `unit` may follow a number before (or after) the `T`.
pub open spec fn is_duration_unit(unit: char, in_time: bool) -> bool {
    if in_time {
        unit == 'H' || unit == 'M' || unit == 'S'
    } else {
        unit == 'Y' || unit == 'M' || unit == 'W' || unit == 'D'
    }
}

/// The rest of a duration from `i`, after or before its `T`, and with or
/// without a component already read.
pub open spec fn is_duration_from(e: Seq<char>, i: int, in_time: bool, any: bool) -> bool
    decreases e.len() - i,
{
    if i < 0 || i >= e.len() {
        any
    } else if e[i] == 'T' {
        !in_time && is_duration_from(e, i + 1, true, any)
    } else {
        match amount_end(e, i) {
            Some(end) => i < end < e.len() && is_duration_unit(e[end], in_time)
                && is_duration_from(e, end + 1, in_time, true),
            None => false,
        }
    }
}

/// An ISO 8601 duration: `P`, then at least one component, the time
/// components after a single `T`.
pub open spec fn is_duration(text: Seq<char>) -> bool {
    text.len() > 0 && text[0] == 'P' && is_duration_from(text, 1, false, false)
}

/// The decimal value of `len` digits from `start`.
pub open spec fn number_at(e: Seq<char>, start: int, len: int) -> int
    decreases len,
{
    if len <= 0 {
        0
    } else {
        number_at(e, start, len - 1) * 10 + (e[start + len - 1] as int - '0' as int)
    }
}

/// `len` decimal digits stand at `start`.
pub open spec fn digits_at(e: Seq<char>, start: int, len: int) -> bool {
    &&& 0 <= start
    &&& start + len <= e.len()
    &&& forall|i: int| start <= i < start + len ==> is_digit(#[trigger] e[i])
}

pub open spec fn is_leap(year: int) -> bool {
    (year % 4 == 0 && year % 100 != 0) || year % 400 == 0
}

/// The number of days of a month, and zero for a number that names no month.
pub open spec fn month_length(year: int, month: int) -> int {
    if month == 1 || month == 3 || month == 5 || month == 7 || month == 8 || month == 10 || month
        == 12 {
        31
    } else if month == 4 || month == 6 || month == 9 || month == 11 {
        30
    } else if month == 2 {
        if is_leap(year) {
            29
        } else {
            28
        }
    } else {
        0
    }
}

/// `YYYY-MM-DDTHH:MM:SS` stands at the start of `e`.
pub open spec fn has_datetime_layout(e: Seq<char>) -> bool {
    &&& e.len() >= 19
    &&& digits_at(e, 0, 4)
    &&& e[4] == '-'
    &&& digits_at(e, 5, 2)
    &&& e[7] == '-'
    &&& digits_at(e, 8, 2)
    &&& (e[10] == 'T' || e[10] == 't')
    &&& digits_at(e, 11, 2)
    &&& e[13] == ':'
    &&& digits_at(e, 14, 2)
    &&& e[16] == ':'
    &&& digits_at(e, 17, 2)
}

/// The numbers of a datetime name a day of the calendar and a time of day.
pub open spec fn has_valid_components(e: Seq<char>) -> bool {
    let year = number_at(e, 0, 4);
    let month = number_at(e, 5, 2);
    &&& 1 <= month <= 12
    &&& 1 <= number_at(e, 8, 2) <= month_length(year, month)
    &&& number_at(e, 11, 2) <= 23
    &&& number_at(e, 14, 2) <= 59
    &&& number_at(e, 17, 2) <= 59
}

/// Position after the optional fraction of a second that begins at `i`.
pub open spec fn fraction_end(e: Seq<char>, i: int) -> int {
    if 0 <= i < e.len() && e[i] == '.' {
        digits_end(e, i + 1)
    } else {
        i
    }
}

/// What may follow the seconds: an optional fraction, then nothing, `Z`, or
/// an offset.
pub open spec fn is_datetime_tail(e: Seq<char>, i: int) -> bool {
    let end = fraction_end(e, i);
    &&& end != i + 1
    &&& {
        ||| end == e.len()
        ||| end + 1 == e.len() && (e[end] == 'Z' || e[end] == 'z')
        ||| end + 6 == e.len() && (e[end] == '+' || e[end] == '-') && digits_at(e, end + 1, 2)
            && e[end + 3] == ':' && digits_at(e, end + 4, 2)
    }
}

/// An ISO 8601 datetime.
pub open spec fn is_datetime(text: Seq<char>) -> bool {
    has_datetime_layout(text) && has_valid_components(text) && is_datetime_tail(text, 19)
}

/// The time-zone mark of a datetime: the character after its optional fraction.
pub open spec fn zone_mark(text: Seq<char>) -> Option<char> {
    let end = fraction_end(text, 19);
    if text.len() >= 20 && end < text.len() {
        Some(text[end])
    } else {
        None
    }
}

pub open spec fn has_z_suffix(text: Seq<char>) -> bool {
    zone_mark(text) == Some('Z') || zone_mark(text) == Some('z')
}

pub open spec fn has_offset(text: Seq<char>) -> bool {
    zone_mark(text) == Some('+') || zone_mark(text) == Some('-')
}

pub open spec fn time_unit_names() -> Seq<Seq<char>> {
    seq!["Day"@, "Hour"@, "Minute"@, "Month"@, "Second"@, "Week"@, "Year"@]
}

pub fn time_units() -> (list: Vec<&'static str>)
    ensures
        names(list@) == time_unit_names(),
{
    let list = vec!["Day", "Hour", "Minute", "Month", "Second", "Week", "Year"];
    assert(names(list@) =~= time_unit_names());
    list
}

/// Skip decimal digits from `from`.
pub(crate) fn skip_digits(e: &[char], from: usize) -> (end: usize)
    requires
        from <= e@.len(),
    ensures
        end == digits_end(e@, from as int),
        from <= end <= e@.len(),
{
    let mut i: usize = from;
    while i < e.len() && '0' <= e[i] && e[i] <= '9'
        invariant
            from <= i <= e@.len(),
            digits_end(e@, from as int) == digits_end(e@, i as int),
        decreases e@.len() - i,
    {
        i += 1;
    }
    i
}

fn skip_amount(e: &[char], from: usize) -> (end: Option<usize>)
    requires
        from <= e@.len(),
    ensures
        match end {
            Some(next) => amount_end(e@, from as int) == Some(next as int) && from < next
                <= e@.len(),
            None => amount_end(e@, from as int) is None,
        },
{
    let whole = skip_digits(e, from);
    if whole == from {
        return None;
    }
    if whole < e.len() && (e[whole] == '.' || e[whole] == ',') {
        let fraction = skip_digits(e, whole + 1);
        if fraction > whole + 1 {
            Some(fraction)
        } else {
            None
        }
    } else {
        Some(whole)
    }
}

/// Strict ISO 8601 duration parser.
pub fn is_iso8601_duration(value: &str) -> (holds: bool)
    ensures
        holds == is_duration(value@),
{
    let chars = chars_of(value);
    let e = chars.as_slice();
    let length: usize = e.len();
    if length == 0 || e[0] != 'P' {
        return false;
    }
    let mut i: usize = 1;
    let mut in_time: bool = false;
    let mut any: bool = false;
    while i < length
        invariant
            1 <= i,
            length == e@.len(),
            e@ == value@,
            is_duration(value@) == is_duration_from(e@, i as int, in_time, any),
        decreases length - i,
    {
        if e[i] == 'T' {
            if in_time {
                return false;
            }
            in_time = true;
            i += 1;
        } else {
            match skip_amount(e, i) {
                None => {
                    return false;
                },
                Some(end) => {
                    if end >= length {
                        return false;
                    }
                    let unit = e[end];
                    let valid = if in_time {
                        unit == 'H' || unit == 'M' || unit == 'S'
                    } else {
                        unit == 'Y' || unit == 'M' || unit == 'W' || unit == 'D'
                    };
                    if !valid {
                        return false;
                    }
                    any = true;
                    i = end + 1;
                },
            }
        }
    }
    any
}

fn ascii_digits(e: &[char], start: usize, len: usize) -> (holds: bool)
    requires
        start + len <= usize::MAX,
    ensures
        holds == digits_at(e@, start as int, len as int),
{
    if start + len > e.len() {
        return false;
    }
    let mut i: usize = start;
    while i < start + len
        invariant
            start <= i <= start + len <= e@.len(),
            start + len <= usize::MAX,
            forall|j: int| start <= j < i ==> is_digit(#[trigger] e@[j]),
        decreases start + len - i,
    {
        if e[i] < '0' || e[i] > '9' {
            assert(!is_digit(e@[i as int]));
            return false;
        }
        i += 1;
    }
    true
}

/// The number that `len` digits from `start` spell.
pub(crate) fn parse_digits(e: &[char], start: usize, len: usize) -> (value: u32)
    requires
        len <= 4,
        digits_at(e@, start as int, len as int),
    ensures
        value == number_at(e@, start as int, len as int),
        value < 10000,
{
    let mut value: u32 = 0;
    let mut i: usize = 0;
    let length: usize = e.len();
    while i < len
        invariant
            i <= len <= 4,
            length == e@.len(),
            start + len <= length,
            digits_at(e@, start as int, len as int),
            value == number_at(e@, start as int, i as int),
            i == 0 ==> value < 1,
            i == 1 ==> value < 10,
            i == 2 ==> value < 100,
            i == 3 ==> value < 1000,
            i == 4 ==> value < 10000,
        decreases len - i,
    {
        assert(is_digit(e@[start + i]));
        value = value * 10 + (e[start + i] as u32 - '0' as u32);
        i += 1;
    }
    value
}

fn is_leap_year(year: u32) -> (holds: bool)
    ensures
        holds == is_leap(year as int),
{
    (year % 4 == 0 && year % 100 != 0) || year % 400 == 0
}

fn days_in_month(year: u32, month: u32) -> (days: u32)
    ensures
        days == month_length(year as int, month as int),
{
    if month == 1 || month == 3 || month == 5 || month == 7 || month == 8 || month == 10 || month
        == 12 {
        31
    } else if month == 4 || month == 6 || month == 9 || month == 11 {
        30
    } else if month == 2 {
        if is_leap_year(year) {
            29
        } else {
            28
        }
    } else {
        0
    }
}

fn valid_iso8601_datetime_components(e: &[char]) -> (holds: bool)
    requires
        has_datetime_layout(e@),
    ensures
        holds == has_valid_components(e@),
{
    let year = parse_digits(e, 0, 4);
    let month = parse_digits(e, 5, 2);
    let day = parse_digits(e, 8, 2);
    let hour = parse_digits(e, 11, 2);
    let minute = parse_digits(e, 14, 2);
    let second = parse_digits(e, 17, 2);
    1 <= month && month <= 12 && 1 <= day && day <= days_in_month(year, month) && hour <= 23
        && minute <= 59 && second <= 59
}

fn skip_fraction(e: &[char], from: usize) -> (end: usize)
    requires
        from <= e@.len(),
    ensures
        end == fraction_end(e@, from as int),
        from <= end <= e@.len(),
{
    if from < e.len() && e[from] == '.' {
        skip_digits(e, from + 1)
    } else {
        from
    }
}

/// Strict ISO 8601 datetime parser: `YYYY-MM-DDTHH:MM:SS`, optional fractional
/// seconds, optional `Z` or `±HH:MM` offset; the date has to exist.
pub fn is_iso8601_datetime(value: &str) -> (holds: bool)
    ensures
        holds == is_datetime(value@),
{
    let chars = chars_of(value);
    let e = chars.as_slice();
    let length: usize = e.len();
    if length < 19 {
        return false;
    }
    if !ascii_digits(e, 0, 4) || e[4] != '-' || !ascii_digits(e, 5, 2) || e[7] != '-'
        || !ascii_digits(e, 8, 2) || !(e[10] == 'T' || e[10] == 't') || !ascii_digits(e, 11, 2)
        || e[13] != ':' || !ascii_digits(e, 14, 2) || e[16] != ':' || !ascii_digits(e, 17, 2) {
        return false;
    }
    if !valid_iso8601_datetime_components(e) {
        return false;
    }
    let end = skip_fraction(e, 19);
    if end == 20 {
        return false;
    }
    if end == length {
        return true;
    }
    if e[end] == 'Z' || e[end] == 'z' {
        return length - end == 1;
    }
    if e[end] == '+' || e[end] == '-' {
        return length - end == 6 && ascii_digits(e, end + 1, 2) && e[end + 3] == ':'
            && ascii_digits(e, end + 4, 2);
    }
    false
}

fn iso8601_datetime_zone_mark(value: &str) -> (mark: Option<char>)
    ensures
        mark == zone_mark(value@),
{
    let chars = chars_of(value);
    let e = chars.as_slice();
    if e.len() < 20 {
        return None;
    }
    let end = skip_fraction(e, 19);
    if end < e.len() {
        Some(e[end])
    } else {
        None
    }
}

/// True when the datetime carries an explicit UTC (`Z`) marker.
pub fn iso8601_datetime_has_z_suffix(value: &str) -> (holds: bool)
    ensures
        holds == has_z_suffix(value@),
{
    match iso8601_datetime_zone_mark(value) {
        Some(mark) => mark == 'Z' || mark == 'z',
        None => false,
    }
}

/// True when the datetime carries an explicit `+HH:MM` or `-HH:MM` offset.
pub fn iso8601_datetime_has_utc_offset(value: &str) -> (holds: bool)
    ensures
        holds == has_offset(value@),
{
    match iso8601_datetime_zone_mark(value) {
        Some(mark) => mark == '+' || mark == '-',
        None => false,
    }
}

pub open spec fn zone_names_a() -> Seq<Seq<char>> {
    seq![
        "Afghanistan Standard Time"@,
        "Alaskan Standard Time"@,
        "Aleutian Standard Time"@,
        "Altai Standard Time"@,
        "Arab Standard Time"@,
        "Arabian Standard Time"@,
        "Arabic Standard Time"@,
        "Argentina Standard Time"@,
        "Astrakhan Standard Time"@,
        "Atlantic Standard Time"@,
        "AUS Central Standard Time"@,
        "AUS Eastern Standard Time"@,
        "Aus Central W. Standard Time"@,
        "Azerbaijan Standard Time"@,
        "Azores Standard Time"@,
        "Bahia Standard Time"@,
        "Bangladesh Standard Time"@,
        "Belarus Standard Time"@,
        "Bougainville Standard Time"@,
        "Canada Central Standard Time"@,
        "Cape Verde Standard Time"@,
        "Caucasus Standard Time"@,
        "Cen. Australia Standard Time"@,
        "Central America Standard Time"@,
        "Central Asia Standard Time"@,
        "Central Brazilian Standard Time"@,
        "Central Europe Standard Time"@,
        "Central European Standard Time"@,
    ]
}

fn zones_a() -> (list: Vec<&'static str>)
    ensures
        names(list@) == zone_names_a(),
{
    let list = vec![
        "Afghanistan Standard Time",
        "Alaskan Standard Time",
        "Aleutian Standard Time",
        "Altai Standard Time",
        "Arab Standard Time",
        "Arabian Standard Time",
        "Arabic Standard Time",
        "Argentina Standard Time",
        "Astrakhan Standard Time",
        "Atlantic Standard Time",
        "AUS Central Standard Time",
        "AUS Eastern Standard Time",
        "Aus Central W. Standard Time",
        "Azerbaijan Standard Time",
        "Azores Standard Time",
        "Bahia Standard Time",
        "Bangladesh Standard Time",
        "Belarus Standard Time",
        "Bougainville Standard Time",
        "Canada Central Standard Time",
        "Cape Verde Standard Time",
        "Caucasus Standard Time",
        "Cen. Australia Standard Time",
        "Central America Standard Time",
        "Central Asia Standard Time",
        "Central Brazilian Standard Time",
        "Central Europe Standard Time",
        "Central European Standard Time",
    ];
    assert(names(list@) =~= zone_names_a());
    list
}

pub open spec fn zone_names_b() -> Seq<Seq<char>> {
    seq![
        "Central Pacific Standard Time"@,
        "Central Standard Time"@,
        "Central Standard Time (Mexico)"@,
        "Chatham Islands Standard Time"@,
        "China Standard Time"@,
        "Cuba Standard Time"@,
        "Dateline Standard Time"@,
        "E. Africa Standard Time"@,
        "E. Australia Standard Time"@,
        "E. Europe Standard Time"@,
        "E. South America Standard Time"@,
        "Easter Island Standard Time"@,
        "Eastern Standard Time"@,
        "Eastern Standard Time (Mexico)"@,
        "Egypt Standard Time"@,
        "Ekaterinburg Standard Time"@,
        "Fiji Standard Time"@,
        "FLE Standard Time"@,
        "Georgian Standard Time"@,
        "GMT Standard Time"@,
        "Greenland Standard Time"@,
        "Greenwich Standard Time"@,
        "GTB Standard Time"@,
        "Haiti Standard Time"@,
        "Hawaiian Standard Time"@,
        "India Standard Time"@,
        "Iran Standard Time"@,
        "Israel Standard Time"@,
    ]
}

fn zones_b() -> (list: Vec<&'static str>)
    ensures
        names(list@) == zone_names_b(),
{
    let list = vec![
        "Central Pacific Standard Time",
        "Central Standard Time",
        "Central Standard Time (Mexico)",
        "Chatham Islands Standard Time",
        "China Standard Time",
        "Cuba Standard Time",
        "Dateline Standard Time",
        "E. Africa Standard Time",
        "E. Australia Standard Time",
        "E. Europe Standard Time",
        "E. South America Standard Time",
        "Easter Island Standard Time",
        "Eastern Standard Time",
        "Eastern Standard Time (Mexico)",
        "Egypt Standard Time",
        "Ekaterinburg Standard Time",
        "Fiji Standard Time",
        "FLE Standard Time",
        "Georgian Standard Time",
        "GMT Standard Time",
        "Greenland Standard Time",
        "Greenwich Standard Time",
        "GTB Standard Time",
        "Haiti Standard Time",
        "Hawaiian Standard Time",
        "India Standard Time",
        "Iran Standard Time",
        "Israel Standard Time",
    ];
    assert(names(list@) =~= zone_names_b());
    list
}

pub open spec fn zone_names_c() -> Seq<Seq<char>> {
    seq![
        "Jordan Standard Time"@,
        "Kaliningrad Standard Time"@,
        "Kamchatka Standard Time"@,
        "Korea Standard Time"@,
        "Libya Standard Time"@,
        "Line Islands Standard Time"@,
        "Lord Howe Standard Time"@,
        "Magadan Standard Time"@,
        "Marquesas Standard Time"@,
        "Mauritius Standard Time"@,
        "Middle East Standard Time"@,
        "Montevideo Standard Time"@,
        "Morocco Standard Time"@,
        "Mountain Standard Time"@,
        "Mountain Standard Time (Mexico)"@,
        "Myanmar Standard Time"@,
        "N. Central Asia Standard Time"@,
        "Namibia Standard Time"@,
        "Nepal Standard Time"@,
        "New Zealand Standard Time"@,
        "Newfoundland Standard Time"@,
        "Norfolk Standard Time"@,
        "North Asia East Standard Time"@,
        "North Asia Standard Time"@,
        "North Korea Standard Time"@,
        "Omsk Standard Time"@,
        "Pacific SA Standard Time"@,
        "Pacific Standard Time"@,
    ]
}

fn zones_c() -> (list: Vec<&'static str>)
    ensures
        names(list@) == zone_names_c(),
{
    let list = vec![
        "Jordan Standard Time",
        "Kaliningrad Standard Time",
        "Kamchatka Standard Time",
        "Korea Standard Time",
        "Libya Standard Time",
        "Line Islands Standard Time",
        "Lord Howe Standard Time",
        "Magadan Standard Time",
        "Marquesas Standard Time",
        "Mauritius Standard Time",
        "Middle East Standard Time",
        "Montevideo Standard Time",
        "Morocco Standard Time",
        "Mountain Standard Time",
        "Mountain Standard Time (Mexico)",
        "Myanmar Standard Time",
        "N. Central Asia Standard Time",
        "Namibia Standard Time",
        "Nepal Standard Time",
        "New Zealand Standard Time",
        "Newfoundland Standard Time",
        "Norfolk Standard Time",
        "North Asia East Standard Time",
        "North Asia Standard Time",
        "North Korea Standard Time",
        "Omsk Standard Time",
        "Pacific SA Standard Time",
        "Pacific Standard Time",
    ];
    assert(names(list@) =~= zone_names_c());
    list
}

pub open spec fn zone_names_d() -> Seq<Seq<char>> {
    seq![
        "Pacific Standard Time (Mexico)"@,
        "Pakistan Standard Time"@,
        "Paraguay Standard Time"@,
        "Qyzylorda Standard Time"@,
        "Romance Standard Time"@,
        "Russia Time Zone 10"@,
        "Russia Time Zone 11"@,
        "Russia Time Zone 3"@,
        "Russian Standard Time"@,
        "SA Eastern Standard Time"@,
        "SA Pacific Standard Time"@,
        "SA Western Standard Time"@,
        "Saint Pierre Standard Time"@,
        "Sakhalin Standard Time"@,
        "Samoa Standard Time"@,
        "Sao Tome Standard Time"@,
        "Saratov Standard Time"@,
        "SE Asia Standard Time"@,
        "Singapore Standard Time"@,
        "South Africa Standard Time"@,
        "South Sudan Standard Time"@,
        "Sri Lanka Standard Time"@,
        "Sudan Standard Time"@,
        "Syria Standard Time"@,
        "Taipei Standard Time"@,
        "Tasmania Standard Time"@,
        "Tocantins Standard Time"@,
        "Tokyo Standard Time"@,
    ]
}

fn zones_d() -> (list: Vec<&'static str>)
    ensures
        names(list@) == zone_names_d(),
{
    let list = vec![
        "Pacific Standard Time (Mexico)",
        "Pakistan Standard Time",
        "Paraguay Standard Time",
        "Qyzylorda Standard Time",
        "Romance Standard Time",
        "Russia Time Zone 10",
        "Russia Time Zone 11",
        "Russia Time Zone 3",
        "Russian Standard Time",
        "SA Eastern Standard Time",
        "SA Pacific Standard Time",
        "SA Western Standard Time",
        "Saint Pierre Standard Time",
        "Sakhalin Standard Time",
        "Samoa Standard Time",
        "Sao Tome Standard Time",
        "Saratov Standard Time",
        "SE Asia Standard Time",
        "Singapore Standard Time",
        "South Africa Standard Time",
        "South Sudan Standard Time",
        "Sri Lanka Standard Time",
        "Sudan Standard Time",
        "Syria Standard Time",
        "Taipei Standard Time",
        "Tasmania Standard Time",
        "Tocantins Standard Time",
        "Tokyo Standard Time",
    ];
    assert(names(list@) =~= zone_names_d());
    list
}

pub open spec fn zone_names_e() -> Seq<Seq<char>> {
    seq![
        "Tomsk Standard Time"@,
        "Tonga Standard Time"@,
        "Transbaikal Standard Time"@,
        "Turkey Standard Time"@,
        "Turks And Caicos Standard Time"@,
        "Ulaanbaatar Standard Time"@,
        "US Eastern Standard Time"@,
        "US Mountain Standard Time"@,
        "UTC"@,
        "UTC+12"@,
        "UTC+13"@,
        "UTC-02"@,
        "UTC-08"@,
        "UTC-09"@,
        "UTC-11"@,
        "Venezuela Standard Time"@,
        "Vladivostok Standard Time"@,
        "W. Australia Standard Time"@,
        "W. Central Africa Standard Time"@,
        "W. Europe Standard Time"@,
        "W. Mongolia Standard Time"@,
        "West Asia Standard Time"@,
        "West Bank Standard Time"@,
        "West Pacific Standard Time"@,
        "Yakutsk Standard Time"@,
        "Yukon Standard Time"@,
    ]
}

fn zones_e() -> (list: Vec<&'static str>)
    ensures
        names(list@) == zone_names_e(),
{
    let list = vec![
        "Tomsk Standard Time",
        "Tonga Standard Time",
        "Transbaikal Standard Time",
        "Turkey Standard Time",
        "Turks And Caicos Standard Time",
        "Ulaanbaatar Standard Time",
        "US Eastern Standard Time",
        "US Mountain Standard Time",
        "UTC",
        "UTC+12",
        "UTC+13",
        "UTC-02",
        "UTC-08",
        "UTC-09",
        "UTC-11",
        "Venezuela Standard Time",
        "Vladivostok Standard Time",
        "W. Australia Standard Time",
        "W. Central Africa Standard Time",
        "W. Europe Standard Time",
        "W. Mongolia Standard Time",
        "West Asia Standard Time",
        "West Bank Standard Time",
        "West Pacific Standard Time",
        "Yakutsk Standard Time",
        "Yukon Standard Time",
    ];
    assert(names(list@) =~= zone_names_e());
    list
}

/// A time-zone identifier of the Windows table.
pub open spec fn is_zone_name(text: Seq<char>) -> bool {
    ||| one_of(text, zone_names_a())
    ||| one_of(text, zone_names_b())
    ||| one_of(text, zone_names_c())
    ||| one_of(text, zone_names_d())
    ||| one_of(text, zone_names_e())
}

/// Case-sensitive lookup in the Windows time-zone table. IANA identifiers
/// are not accepted.
pub fn is_windows_time_zone(value: &str) -> (holds: bool)
    ensures
        holds == is_zone_name(value@),
{
    in_list(value, zones_a().as_slice())
        || in_list(value, zones_b().as_slice())
        || in_list(value, zones_c().as_slice())
        || in_list(value, zones_d().as_slice())
        || in_list(value, zones_e().as_slice())
}

} // verus!
