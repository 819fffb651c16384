//! What moments, days and time zones are told by.

use vstd::arithmetic::power::pow;
use vstd::prelude::*;

use crate::arm::ArmScope;
use crate::json::{field, joined, text_field, Document, Json, Node, Number};
use crate::shape::operations::authored_trigger_findings;
use crate::shape::plain_laws::{
    holds_only, is_plain, keeps_state, lemma_plain, lemma_trigger_alone, lemma_trigger_by_type,
};
use crate::shape::recurrence_laws::{is_unmarked, lemma_unmarked_is_literal};
use crate::shape::registry::TriggerSpec;
use crate::shape::root_laws::is_number_text;
use crate::shape::time::{
    digits_at, digits_end, fraction_end, has_datetime_layout, has_offset, has_valid_components,
    has_z_suffix, is_datetime, is_leap, is_zone_name, number_at, zone_names_a, zone_names_b,
    zone_names_c, zone_names_d, zone_names_e,
};
use crate::shape::triggers::date::{
    date_of, day_number, days_before_month, is_date, law_day_number_orders_dates,
    leap_years_before, text_date, today, years_later, Date,
};
use crate::shape::triggers::recurrence::{
    recurrence_frequency_names,     datetime_findings, interval_findings, recurrence_object_findings, time_zone_findings,
};
use crate::shape::triggers::schedule::{interval_limit_findings, schedule_findings};
use crate::shape::type_laws::lemma_trigger_types;
use crate::text::{digits_value, one_of, same_ignoring_case};
use crate::workflow::Workflow;

verus! {

/// Digits count as in decimal notation: one digit counts as itself, and digits
/// in front of others by the power of ten that those have places for.
pub proof fn law_digits_are_decimal(first: Seq<char>, second: Seq<char>, c: char)
    requires
        forall|i: int| 0 <= i < first.len() ==> '0' <= #[trigger] first[i] <= '9',
        forall|i: int| 0 <= i < second.len() ==> '0' <= #[trigger] second[i] <= '9',
        '0' <= c <= '9',
    ensures
        digits_value(seq![c]) == c as int - '0' as int,
        digits_value(first + second) == digits_value(first) * pow(10, second.len())
            + digits_value(second),
    decreases second.len(),
{
    reveal(pow);
    assert(seq![c].drop_last() =~= Seq::<char>::empty());
    assert(digits_value(Seq::<char>::empty()) == 0);
    assert(seq![c].last() == c);
    assert(digits_value(seq![c]) == digits_value(seq![c].drop_last()) * 10 + (c as int - '0' as int));
    if second.len() == 0 {
        assert(first + second =~= first);
    } else {
        let front = second.drop_last();
        law_digits_are_decimal(first, front, c);
        assert((first + second).drop_last() =~= first + front);
        let p = pow(10, front.len());
        assert(pow(10, second.len()) == 10 * p);
        let a = digits_value(first) as int;
        assert((a * p) * 10 == a * (10 * p)) by (nonlinear_arith);
    }
}

/// A text of `n` digits.
pub open spec fn is_digits(text: Seq<char>, n: nat) -> bool {
    text.len() == n && forall|i: int| 0 <= i < text.len() ==> '0' <= #[trigger] text[i] <= '9'
}

/// A date and a time of day, put together from their digits.
pub open spec fn moment(
    year: Seq<char>,
    month: Seq<char>,
    day: Seq<char>,
    hour: Seq<char>,
    minute: Seq<char>,
    second: Seq<char>,
) -> Seq<char> {
    year + seq!['-'] + month + seq!['-'] + day + seq!['T'] + hour + seq![':'] + minute + seq![':']
        + second
}

/// A day that the calendar has.
pub open spec fn is_calendar_day(year: nat, month: nat, day: nat) -> bool {
    &&& 1 <= month <= 12
    &&& 1 <= day <= 31
    &&& day == 31 ==> month != 2 && month != 4 && month != 6 && month != 9 && month != 11
    &&& day == 30 ==> month != 2
    &&& day == 29 && month == 2 ==> year % 4 == 0 && (year % 100 == 0 ==> year % 400 == 0)
}

/// A time of day.
pub open spec fn is_time_of_day(hour: nat, minute: nat, second: nat) -> bool {
    hour < 24 && minute < 60 && second < 60
}

proof fn lemma_number(text: Seq<char>, start: int, part: Seq<char>)
    requires
        0 <= start,
        start + part.len() <= text.len(),
        text.subrange(start, start + part.len()) == part,
        forall|i: int| 0 <= i < part.len() ==> '0' <= #[trigger] part[i] <= '9',
    ensures
        number_at(text, start, part.len() as int) == digits_value(part),
        digits_at(text, start, part.len() as int),
    decreases part.len(),
{
    assert forall|i: int| start <= i < start + part.len() implies '0' <= #[trigger] text[i]
        <= '9' by {
        assert(text[i] == part[i - start]);
    }
    if part.len() > 0 {
        let front = part.drop_last();
        assert(text.subrange(start, start + front.len()) =~= front);
        assert(text[start + part.len() - 1] == part.last());
        lemma_number(text, start, front);
    }
}

proof fn lemma_digits_end(e: Seq<char>, i: int, end: int)
    requires
        0 <= i <= end <= e.len(),
        forall|k: int| i <= k < end ==> '0' <= #[trigger] e[k] <= '9',
        end < e.len() ==> !('0' <= e[end] <= '9'),
    ensures
        digits_end(e, i) == end,
    decreases end - i,
{
    if i < end {
        lemma_digits_end(e, i + 1, end);
    }
}

proof fn lemma_moment(
    year: Seq<char>,
    month: Seq<char>,
    day: Seq<char>,
    hour: Seq<char>,
    minute: Seq<char>,
    second: Seq<char>,
    tail: Seq<char>,
)
    requires
        is_digits(year, 4),
        is_digits(month, 2),
        is_digits(day, 2),
        is_digits(hour, 2),
        is_digits(minute, 2),
        is_digits(second, 2),
    ensures
        ({
            let text = moment(year, month, day, hour, minute, second) + tail;
            &&& has_datetime_layout(text)
            &&& has_valid_components(text) == (is_calendar_day(
                digits_value(year),
                digits_value(month),
                digits_value(day),
            ) && is_time_of_day(digits_value(hour), digits_value(minute), digits_value(second)))
            &&& text.len() == 19 + tail.len()
            &&& text.skip(19) == tail
            &&& text_date(text) == (Date {
                year: digits_value(year) as int,
                month: digits_value(month) as int,
                day: digits_value(day) as int,
            })
        }),
{
    let text = moment(year, month, day, hour, minute, second) + tail;
    assert(text.subrange(0, 4) =~= year);
    assert(text.subrange(5, 7) =~= month);
    assert(text.subrange(8, 10) =~= day);
    assert(text.subrange(11, 13) =~= hour);
    assert(text.subrange(14, 16) =~= minute);
    assert(text.subrange(17, 19) =~= second);
    lemma_number(text, 0, year);
    lemma_number(text, 5, month);
    lemma_number(text, 8, day);
    lemma_number(text, 11, hour);
    lemma_number(text, 14, minute);
    lemma_number(text, 17, second);
    assert(text.skip(19) =~= tail);
}

/// A moment written out is one exactly where the calendar has the day and the
/// day has the time.
pub proof fn law_moments_are_told_by_their_numbers(
    year: Seq<char>,
    month: Seq<char>,
    day: Seq<char>,
    hour: Seq<char>,
    minute: Seq<char>,
    second: Seq<char>,
    decimals: Seq<char>,
    zone: Seq<char>,
)
    requires
        is_digits(year, 4),
        is_digits(month, 2),
        is_digits(day, 2),
        is_digits(hour, 2),
        is_digits(minute, 2),
        is_digits(second, 2),
        is_number_text(decimals),
        zone.len() == 0 || zone == seq!['Z'] || (zone.len() == 6 && (zone[0] == '+' || zone[0]
            == '-') && '0' <= zone[1] <= '9' && '0' <= zone[2] <= '9' && zone[3] == ':' && '0'
            <= zone[4] <= '9' && '0' <= zone[5] <= '9'),
    ensures
        ({
            let stem = moment(year, month, day, hour, minute, second);
            let holds = is_calendar_day(
                digits_value(year),
                digits_value(month),
                digits_value(day),
            ) && is_time_of_day(digits_value(hour), digits_value(minute), digits_value(second));
            &&& is_datetime(stem + zone) == holds
            &&& is_datetime(stem + (seq!['.'] + decimals + zone)) == holds
            &&& has_z_suffix(stem + zone) == (zone == seq!['Z'])
            &&& has_z_suffix(stem + (seq!['.'] + decimals + zone)) == (zone == seq!['Z'])
            &&& has_offset(stem + zone) == (zone.len() == 6)
            &&& has_offset(stem + (seq!['.'] + decimals + zone)) == (zone.len() == 6)
        }),
{
    let stem = moment(year, month, day, hour, minute, second);
    lemma_moment(year, month, day, hour, minute, second, zone);
    let text = stem + zone;
    lemma_tail(text, 19, zone);
    assert(fraction_end(text, 19) == 19) by {
        if text.len() > 19 {
            assert(text[19] == zone[0]);
        }
    }
    if zone.len() > 0 {
        assert(text[19] == zone[0]);
    }
    let tail = seq!['.'] + decimals + zone;
    lemma_moment(year, month, day, hour, minute, second, tail);
    let long = stem + tail;
    let end = 20 + decimals.len() as int;
    assert(long[19] == tail[0]);
    assert forall|k: int| 20 <= k < end implies '0' <= #[trigger] long[k] <= '9' by {
        assert(long[k] == tail[k - 19]);
        assert(tail[k - 19] == decimals[k - 20]);
    }
    assert(long.skip(end) =~= zone);
    if end < long.len() {
        assert(long[end] == zone[0]);
    }
    lemma_digits_end(long, 20, end);
    assert(fraction_end(long, 19) == end);
    lemma_tail(long, end, zone);
}

proof fn lemma_tail(text: Seq<char>, end: int, zone: Seq<char>)
    requires
        19 <= end <= text.len(),
        text.skip(end) == zone,
        zone.len() == 0 || zone == seq!['Z'] || (zone.len() == 6 && (zone[0] == '+' || zone[0]
            == '-') && '0' <= zone[1] <= '9' && '0' <= zone[2] <= '9' && zone[3] == ':' && '0'
            <= zone[4] <= '9' && '0' <= zone[5] <= '9'),
    ensures
        end == text.len() || end + 1 == text.len() && text[end] == 'Z' || end + 6 == text.len() && (
        text[end] == '+' || text[end] == '-') && digits_at(text, end + 1, 2) && text[end + 3] == ':'
            && digits_at(text, end + 4, 2),
        zone.len() == 0 ==> end == text.len(),
        zone.len() > 0 ==> end < text.len() && text[end] == zone[0],
{
    assert(text.len() == end + zone.len());
    assert forall|i: int| 0 <= i < zone.len() implies #[trigger] zone[i] == text[end + i] by {}
    if zone.len() == 6 {
        assert(text[end] == zone[0] && text[end + 1] == zone[1] && text[end + 2] == zone[2]
            && text[end + 3] == zone[3] && text[end + 4] == zone[4] && text[end + 5] == zone[5]);
    } else if zone.len() > 0 {
        assert(zone[0] == 'Z');
    }
}

/// The day after another.
pub open spec fn next_day(year: int, month: int, day: int) -> Date {
    let last = if month == 2 {
        if year % 4 == 0 && (year % 100 == 0 ==> year % 400 == 0) {
            29int
        } else {
            28
        }
    } else if month == 4 || month == 6 || month == 9 || month == 11 {
        30
    } else {
        31
    };
    if day < last {
        Date { year, month, day: day + 1 }
    } else if month < 12 {
        Date { year, month: month + 1, day: 1 }
    } else {
        Date { year: year + 1, month: 1, day: 1 }
    }
}

/// Days are counted one by one from the first of January of 1970.
pub proof fn law_days_are_counted_one_by_one(date: Date)
    requires
        is_date(date),
    ensures
        day_number(Date { year: 1970, month: 1, day: 1 }) == 0,
        is_date(next_day(date.year, date.month, date.day)),
        day_number(next_day(date.year, date.month, date.day)) == day_number(date) + 1,
{
    let next = next_day(date.year, date.month, date.day);
    reveal_with_fuel(days_before_month, 14);
    let y = date.year;
    if date.month == 12 && date.day == 31 {
        assert(leap_years_before(y + 1) - leap_years_before(y) == (if is_leap(y) {
            1int
        } else {
            0
        })) by {
            assert(y / 4 - (y - 1) / 4 == (if y % 4 == 0 {
                1int
            } else {
                0
            }));
            assert(y / 100 - (y - 1) / 100 == (if y % 100 == 0 {
                1int
            } else {
                0
            }));
            assert(y / 400 - (y - 1) / 400 == (if y % 400 == 0 {
                1int
            } else {
                0
            }));
        }
    }
}

proof fn lemma_zone_names_a(name: Seq<char>)
    ensures
        one_of(name, zone_names_a()) == (name == "Afghanistan Standard Time"@ || name == "Alaskan Standard Time"@ || name == "Aleutian Standard Time"@ || name == "Altai Standard Time"@ || name == "Arab Standard Time"@ || name == "Arabian Standard Time"@ || name == "Arabic Standard Time"@ || name == "Argentina Standard Time"@ || name == "Astrakhan Standard Time"@ || name == "Atlantic Standard Time"@ || name == "AUS Central Standard Time"@ || name == "AUS Eastern Standard Time"@ || name == "Aus Central W. Standard Time"@ || name == "Azerbaijan Standard Time"@ || name == "Azores Standard Time"@ || name == "Bahia Standard Time"@ || name == "Bangladesh Standard Time"@ || name == "Belarus Standard Time"@ || name == "Bougainville Standard Time"@ || name == "Canada Central Standard Time"@ || name == "Cape Verde Standard Time"@ || name == "Caucasus Standard Time"@ || name == "Cen. Australia Standard Time"@ || name == "Central America Standard Time"@ || name == "Central Asia Standard Time"@ || name == "Central Brazilian Standard Time"@ || name == "Central Europe Standard Time"@ || name == "Central European Standard Time"@),
{
    let list = zone_names_a();
    if one_of(name, list) {
        let k = choose|k: int| 0 <= k < list.len() && list[k] == name;
        assert(list[k] == name);
    }
    assert(list[0] == "Afghanistan Standard Time"@);
    assert(list[1] == "Alaskan Standard Time"@);
    assert(list[2] == "Aleutian Standard Time"@);
    assert(list[3] == "Altai Standard Time"@);
    assert(list[4] == "Arab Standard Time"@);
    assert(list[5] == "Arabian Standard Time"@);
    assert(list[6] == "Arabic Standard Time"@);
    assert(list[7] == "Argentina Standard Time"@);
    assert(list[8] == "Astrakhan Standard Time"@);
    assert(list[9] == "Atlantic Standard Time"@);
    assert(list[10] == "AUS Central Standard Time"@);
    assert(list[11] == "AUS Eastern Standard Time"@);
    assert(list[12] == "Aus Central W. Standard Time"@);
    assert(list[13] == "Azerbaijan Standard Time"@);
    assert(list[14] == "Azores Standard Time"@);
    assert(list[15] == "Bahia Standard Time"@);
    assert(list[16] == "Bangladesh Standard Time"@);
    assert(list[17] == "Belarus Standard Time"@);
    assert(list[18] == "Bougainville Standard Time"@);
    assert(list[19] == "Canada Central Standard Time"@);
    assert(list[20] == "Cape Verde Standard Time"@);
    assert(list[21] == "Caucasus Standard Time"@);
    assert(list[22] == "Cen. Australia Standard Time"@);
    assert(list[23] == "Central America Standard Time"@);
    assert(list[24] == "Central Asia Standard Time"@);
    assert(list[25] == "Central Brazilian Standard Time"@);
    assert(list[26] == "Central Europe Standard Time"@);
    assert(list[27] == "Central European Standard Time"@);
}

proof fn lemma_zone_names_b(name: Seq<char>)
    ensures
        one_of(name, zone_names_b()) == (name == "Central Pacific Standard Time"@ || name == "Central Standard Time"@ || name == "Central Standard Time (Mexico)"@ || name == "Chatham Islands Standard Time"@ || name == "China Standard Time"@ || name == "Cuba Standard Time"@ || name == "Dateline Standard Time"@ || name == "E. Africa Standard Time"@ || name == "E. Australia Standard Time"@ || name == "E. Europe Standard Time"@ || name == "E. South America Standard Time"@ || name == "Easter Island Standard Time"@ || name == "Eastern Standard Time"@ || name == "Eastern Standard Time (Mexico)"@ || name == "Egypt Standard Time"@ || name == "Ekaterinburg Standard Time"@ || name == "Fiji Standard Time"@ || name == "FLE Standard Time"@ || name == "Georgian Standard Time"@ || name == "GMT Standard Time"@ || name == "Greenland Standard Time"@ || name == "Greenwich Standard Time"@ || name == "GTB Standard Time"@ || name == "Haiti Standard Time"@ || name == "Hawaiian Standard Time"@ || name == "India Standard Time"@ || name == "Iran Standard Time"@ || name == "Israel Standard Time"@),
{
    let list = zone_names_b();
    if one_of(name, list) {
        let k = choose|k: int| 0 <= k < list.len() && list[k] == name;
        assert(list[k] == name);
    }
    assert(list[0] == "Central Pacific Standard Time"@);
    assert(list[1] == "Central Standard Time"@);
    assert(list[2] == "Central Standard Time (Mexico)"@);
    assert(list[3] == "Chatham Islands Standard Time"@);
    assert(list[4] == "China Standard Time"@);
    assert(list[5] == "Cuba Standard Time"@);
    assert(list[6] == "Dateline Standard Time"@);
    assert(list[7] == "E. Africa Standard Time"@);
    assert(list[8] == "E. Australia Standard Time"@);
    assert(list[9] == "E. Europe Standard Time"@);
    assert(list[10] == "E. South America Standard Time"@);
    assert(list[11] == "Easter Island Standard Time"@);
    assert(list[12] == "Eastern Standard Time"@);
    assert(list[13] == "Eastern Standard Time (Mexico)"@);
    assert(list[14] == "Egypt Standard Time"@);
    assert(list[15] == "Ekaterinburg Standard Time"@);
    assert(list[16] == "Fiji Standard Time"@);
    assert(list[17] == "FLE Standard Time"@);
    assert(list[18] == "Georgian Standard Time"@);
    assert(list[19] == "GMT Standard Time"@);
    assert(list[20] == "Greenland Standard Time"@);
    assert(list[21] == "Greenwich Standard Time"@);
    assert(list[22] == "GTB Standard Time"@);
    assert(list[23] == "Haiti Standard Time"@);
    assert(list[24] == "Hawaiian Standard Time"@);
    assert(list[25] == "India Standard Time"@);
    assert(list[26] == "Iran Standard Time"@);
    assert(list[27] == "Israel Standard Time"@);
}

proof fn lemma_zone_names_c(name: Seq<char>)
    ensures
        one_of(name, zone_names_c()) == (name == "Jordan Standard Time"@ || name == "Kaliningrad Standard Time"@ || name == "Kamchatka Standard Time"@ || name == "Korea Standard Time"@ || name == "Libya Standard Time"@ || name == "Line Islands Standard Time"@ || name == "Lord Howe Standard Time"@ || name == "Magadan Standard Time"@ || name == "Marquesas Standard Time"@ || name == "Mauritius Standard Time"@ || name == "Middle East Standard Time"@ || name == "Montevideo Standard Time"@ || name == "Morocco Standard Time"@ || name == "Mountain Standard Time"@ || name == "Mountain Standard Time (Mexico)"@ || name == "Myanmar Standard Time"@ || name == "N. Central Asia Standard Time"@ || name == "Namibia Standard Time"@ || name == "Nepal Standard Time"@ || name == "New Zealand Standard Time"@ || name == "Newfoundland Standard Time"@ || name == "Norfolk Standard Time"@ || name == "North Asia East Standard Time"@ || name == "North Asia Standard Time"@ || name == "North Korea Standard Time"@ || name == "Omsk Standard Time"@ || name == "Pacific SA Standard Time"@ || name == "Pacific Standard Time"@),
{
    let list = zone_names_c();
    if one_of(name, list) {
        let k = choose|k: int| 0 <= k < list.len() && list[k] == name;
        assert(list[k] == name);
    }
    assert(list[0] == "Jordan Standard Time"@);
    assert(list[1] == "Kaliningrad Standard Time"@);
    assert(list[2] == "Kamchatka Standard Time"@);
    assert(list[3] == "Korea Standard Time"@);
    assert(list[4] == "Libya Standard Time"@);
    assert(list[5] == "Line Islands Standard Time"@);
    assert(list[6] == "Lord Howe Standard Time"@);
    assert(list[7] == "Magadan Standard Time"@);
    assert(list[8] == "Marquesas Standard Time"@);
    assert(list[9] == "Mauritius Standard Time"@);
    assert(list[10] == "Middle East Standard Time"@);
    assert(list[11] == "Montevideo Standard Time"@);
    assert(list[12] == "Morocco Standard Time"@);
    assert(list[13] == "Mountain Standard Time"@);
    assert(list[14] == "Mountain Standard Time (Mexico)"@);
    assert(list[15] == "Myanmar Standard Time"@);
    assert(list[16] == "N. Central Asia Standard Time"@);
    assert(list[17] == "Namibia Standard Time"@);
    assert(list[18] == "Nepal Standard Time"@);
    assert(list[19] == "New Zealand Standard Time"@);
    assert(list[20] == "Newfoundland Standard Time"@);
    assert(list[21] == "Norfolk Standard Time"@);
    assert(list[22] == "North Asia East Standard Time"@);
    assert(list[23] == "North Asia Standard Time"@);
    assert(list[24] == "North Korea Standard Time"@);
    assert(list[25] == "Omsk Standard Time"@);
    assert(list[26] == "Pacific SA Standard Time"@);
    assert(list[27] == "Pacific Standard Time"@);
}

proof fn lemma_zone_names_d(name: Seq<char>)
    ensures
        one_of(name, zone_names_d()) == (name == "Pacific Standard Time (Mexico)"@ || name == "Pakistan Standard Time"@ || name == "Paraguay Standard Time"@ || name == "Qyzylorda Standard Time"@ || name == "Romance Standard Time"@ || name == "Russia Time Zone 10"@ || name == "Russia Time Zone 11"@ || name == "Russia Time Zone 3"@ || name == "Russian Standard Time"@ || name == "SA Eastern Standard Time"@ || name == "SA Pacific Standard Time"@ || name == "SA Western Standard Time"@ || name == "Saint Pierre Standard Time"@ || name == "Sakhalin Standard Time"@ || name == "Samoa Standard Time"@ || name == "Sao Tome Standard Time"@ || name == "Saratov Standard Time"@ || name == "SE Asia Standard Time"@ || name == "Singapore Standard Time"@ || name == "South Africa Standard Time"@ || name == "South Sudan Standard Time"@ || name == "Sri Lanka Standard Time"@ || name == "Sudan Standard Time"@ || name == "Syria Standard Time"@ || name == "Taipei Standard Time"@ || name == "Tasmania Standard Time"@ || name == "Tocantins Standard Time"@ || name == "Tokyo Standard Time"@),
{
    let list = zone_names_d();
    if one_of(name, list) {
        let k = choose|k: int| 0 <= k < list.len() && list[k] == name;
        assert(list[k] == name);
    }
    assert(list[0] == "Pacific Standard Time (Mexico)"@);
    assert(list[1] == "Pakistan Standard Time"@);
    assert(list[2] == "Paraguay Standard Time"@);
    assert(list[3] == "Qyzylorda Standard Time"@);
    assert(list[4] == "Romance Standard Time"@);
    assert(list[5] == "Russia Time Zone 10"@);
    assert(list[6] == "Russia Time Zone 11"@);
    assert(list[7] == "Russia Time Zone 3"@);
    assert(list[8] == "Russian Standard Time"@);
    assert(list[9] == "SA Eastern Standard Time"@);
    assert(list[10] == "SA Pacific Standard Time"@);
    assert(list[11] == "SA Western Standard Time"@);
    assert(list[12] == "Saint Pierre Standard Time"@);
    assert(list[13] == "Sakhalin Standard Time"@);
    assert(list[14] == "Samoa Standard Time"@);
    assert(list[15] == "Sao Tome Standard Time"@);
    assert(list[16] == "Saratov Standard Time"@);
    assert(list[17] == "SE Asia Standard Time"@);
    assert(list[18] == "Singapore Standard Time"@);
    assert(list[19] == "South Africa Standard Time"@);
    assert(list[20] == "South Sudan Standard Time"@);
    assert(list[21] == "Sri Lanka Standard Time"@);
    assert(list[22] == "Sudan Standard Time"@);
    assert(list[23] == "Syria Standard Time"@);
    assert(list[24] == "Taipei Standard Time"@);
    assert(list[25] == "Tasmania Standard Time"@);
    assert(list[26] == "Tocantins Standard Time"@);
    assert(list[27] == "Tokyo Standard Time"@);
}

proof fn lemma_zone_names_e(name: Seq<char>)
    ensures
        one_of(name, zone_names_e()) == (name == "Tomsk Standard Time"@ || name == "Tonga Standard Time"@ || name == "Transbaikal Standard Time"@ || name == "Turkey Standard Time"@ || name == "Turks And Caicos Standard Time"@ || name == "Ulaanbaatar Standard Time"@ || name == "US Eastern Standard Time"@ || name == "US Mountain Standard Time"@ || name == "UTC"@ || name == "UTC+12"@ || name == "UTC+13"@ || name == "UTC-02"@ || name == "UTC-08"@ || name == "UTC-09"@ || name == "UTC-11"@ || name == "Venezuela Standard Time"@ || name == "Vladivostok Standard Time"@ || name == "W. Australia Standard Time"@ || name == "W. Central Africa Standard Time"@ || name == "W. Europe Standard Time"@ || name == "W. Mongolia Standard Time"@ || name == "West Asia Standard Time"@ || name == "West Bank Standard Time"@ || name == "West Pacific Standard Time"@ || name == "Yakutsk Standard Time"@ || name == "Yukon Standard Time"@),
{
    let list = zone_names_e();
    if one_of(name, list) {
        let k = choose|k: int| 0 <= k < list.len() && list[k] == name;
        assert(list[k] == name);
    }
    assert(list[0] == "Tomsk Standard Time"@);
    assert(list[1] == "Tonga Standard Time"@);
    assert(list[2] == "Transbaikal Standard Time"@);
    assert(list[3] == "Turkey Standard Time"@);
    assert(list[4] == "Turks And Caicos Standard Time"@);
    assert(list[5] == "Ulaanbaatar Standard Time"@);
    assert(list[6] == "US Eastern Standard Time"@);
    assert(list[7] == "US Mountain Standard Time"@);
    assert(list[8] == "UTC"@);
    assert(list[9] == "UTC+12"@);
    assert(list[10] == "UTC+13"@);
    assert(list[11] == "UTC-02"@);
    assert(list[12] == "UTC-08"@);
    assert(list[13] == "UTC-09"@);
    assert(list[14] == "UTC-11"@);
    assert(list[15] == "Venezuela Standard Time"@);
    assert(list[16] == "Vladivostok Standard Time"@);
    assert(list[17] == "W. Australia Standard Time"@);
    assert(list[18] == "W. Central Africa Standard Time"@);
    assert(list[19] == "W. Europe Standard Time"@);
    assert(list[20] == "W. Mongolia Standard Time"@);
    assert(list[21] == "West Asia Standard Time"@);
    assert(list[22] == "West Bank Standard Time"@);
    assert(list[23] == "West Pacific Standard Time"@);
    assert(list[24] == "Yakutsk Standard Time"@);
    assert(list[25] == "Yukon Standard Time"@);
}

/// The time zones that there are.
pub proof fn law_time_zones_are_known_by_name(name: Seq<char>)
    ensures
        is_zone_name(name) == (name == "Afghanistan Standard Time"@ || name == "Alaskan Standard Time"@ || name == "Aleutian Standard Time"@ || name == "Altai Standard Time"@ || name == "Arab Standard Time"@ || name == "Arabian Standard Time"@ || name == "Arabic Standard Time"@ || name == "Argentina Standard Time"@ || name == "Astrakhan Standard Time"@ || name == "Atlantic Standard Time"@ || name == "AUS Central Standard Time"@ || name == "AUS Eastern Standard Time"@ || name == "Aus Central W. Standard Time"@ || name == "Azerbaijan Standard Time"@ || name == "Azores Standard Time"@ || name == "Bahia Standard Time"@ || name == "Bangladesh Standard Time"@ || name == "Belarus Standard Time"@ || name == "Bougainville Standard Time"@ || name == "Canada Central Standard Time"@ || name == "Cape Verde Standard Time"@ || name == "Caucasus Standard Time"@ || name == "Cen. Australia Standard Time"@ || name == "Central America Standard Time"@ || name == "Central Asia Standard Time"@ || name == "Central Brazilian Standard Time"@ || name == "Central Europe Standard Time"@ || name == "Central European Standard Time"@ || name == "Central Pacific Standard Time"@ || name == "Central Standard Time"@ || name == "Central Standard Time (Mexico)"@ || name == "Chatham Islands Standard Time"@ || name == "China Standard Time"@ || name == "Cuba Standard Time"@ || name == "Dateline Standard Time"@ || name == "E. Africa Standard Time"@ || name == "E. Australia Standard Time"@ || name == "E. Europe Standard Time"@ || name == "E. South America Standard Time"@ || name == "Easter Island Standard Time"@ || name == "Eastern Standard Time"@ || name == "Eastern Standard Time (Mexico)"@ || name == "Egypt Standard Time"@ || name == "Ekaterinburg Standard Time"@ || name == "Fiji Standard Time"@ || name == "FLE Standard Time"@ || name == "Georgian Standard Time"@ || name == "GMT Standard Time"@ || name == "Greenland Standard Time"@ || name == "Greenwich Standard Time"@ || name == "GTB Standard Time"@ || name == "Haiti Standard Time"@ || name == "Hawaiian Standard Time"@ || name == "India Standard Time"@ || name == "Iran Standard Time"@ || name == "Israel Standard Time"@ || name == "Jordan Standard Time"@ || name == "Kaliningrad Standard Time"@ || name == "Kamchatka Standard Time"@ || name == "Korea Standard Time"@ || name == "Libya Standard Time"@ || name == "Line Islands Standard Time"@ || name == "Lord Howe Standard Time"@ || name == "Magadan Standard Time"@ || name == "Marquesas Standard Time"@ || name == "Mauritius Standard Time"@ || name == "Middle East Standard Time"@ || name == "Montevideo Standard Time"@ || name == "Morocco Standard Time"@ || name == "Mountain Standard Time"@ || name == "Mountain Standard Time (Mexico)"@ || name == "Myanmar Standard Time"@ || name == "N. Central Asia Standard Time"@ || name == "Namibia Standard Time"@ || name == "Nepal Standard Time"@ || name == "New Zealand Standard Time"@ || name == "Newfoundland Standard Time"@ || name == "Norfolk Standard Time"@ || name == "North Asia East Standard Time"@ || name == "North Asia Standard Time"@ || name == "North Korea Standard Time"@ || name == "Omsk Standard Time"@ || name == "Pacific SA Standard Time"@ || name == "Pacific Standard Time"@ || name == "Pacific Standard Time (Mexico)"@ || name == "Pakistan Standard Time"@ || name == "Paraguay Standard Time"@ || name == "Qyzylorda Standard Time"@ || name == "Romance Standard Time"@ || name == "Russia Time Zone 10"@ || name == "Russia Time Zone 11"@ || name == "Russia Time Zone 3"@ || name == "Russian Standard Time"@ || name == "SA Eastern Standard Time"@ || name == "SA Pacific Standard Time"@ || name == "SA Western Standard Time"@ || name == "Saint Pierre Standard Time"@ || name == "Sakhalin Standard Time"@ || name == "Samoa Standard Time"@ || name == "Sao Tome Standard Time"@ || name == "Saratov Standard Time"@ || name == "SE Asia Standard Time"@ || name == "Singapore Standard Time"@ || name == "South Africa Standard Time"@ || name == "South Sudan Standard Time"@ || name == "Sri Lanka Standard Time"@ || name == "Sudan Standard Time"@ || name == "Syria Standard Time"@ || name == "Taipei Standard Time"@ || name == "Tasmania Standard Time"@ || name == "Tocantins Standard Time"@ || name == "Tokyo Standard Time"@ || name == "Tomsk Standard Time"@ || name == "Tonga Standard Time"@ || name == "Transbaikal Standard Time"@ || name == "Turkey Standard Time"@ || name == "Turks And Caicos Standard Time"@ || name == "Ulaanbaatar Standard Time"@ || name == "US Eastern Standard Time"@ || name == "US Mountain Standard Time"@ || name == "UTC"@ || name == "UTC+12"@ || name == "UTC+13"@ || name == "UTC-02"@ || name == "UTC-08"@ || name == "UTC-09"@ || name == "UTC-11"@ || name == "Venezuela Standard Time"@ || name == "Vladivostok Standard Time"@ || name == "W. Australia Standard Time"@ || name == "W. Central Africa Standard Time"@ || name == "W. Europe Standard Time"@ || name == "W. Mongolia Standard Time"@ || name == "West Asia Standard Time"@ || name == "West Bank Standard Time"@ || name == "West Pacific Standard Time"@ || name == "Yakutsk Standard Time"@ || name == "Yukon Standard Time"@),
{
    lemma_zone_names_a(name);
    lemma_zone_names_b(name);
    lemma_zone_names_c(name);
    lemma_zone_names_d(name);
    lemma_zone_names_e(name);
}

/// A recurrence with these members has nothing else.
proof fn lemma_start_alone(node: &Node)
    requires
        holds_only(node, seq!["frequency"@, "interval"@, "startTime"@, "timeZone"@]),
    ensures
        field(node, "count"@) is None,
        field(node, "endTime"@) is None,
        field(node, "schedule"@) is None,
{
    reveal_strlit("frequency");
    reveal_strlit("interval");
    reveal_strlit("startTime");
    reveal_strlit("timeZone");
    reveal_strlit("count");
    reveal_strlit("endTime");
    reveal_strlit("schedule");
    assert("frequency"@.len() == 9 && "frequency"@[0] == 'f');
    assert("interval"@.len() == 8 && "interval"@[0] == 'i');
    assert("startTime"@.len() == 9 && "startTime"@[0] == 's');
    assert("timeZone"@.len() == 8 && "timeZone"@[0] == 't');
    assert("count"@.len() == 5 && "count"@[0] == 'c');
    assert("endTime"@.len() == 7 && "endTime"@[0] == 'e');
    assert("schedule"@.len() == 8 && "schedule"@[0] == 's');
    let keys = seq!["frequency"@, "interval"@, "startTime"@, "timeZone"@];
    if field(node, "count"@) is Some {
        assert(keys.contains("count"@));
        let i = choose|i: int| 0 <= i < keys.len() && keys[i] == "count"@;
        assert(keys[i] == "count"@);
    }
    if field(node, "endTime"@) is Some {
        assert(keys.contains("endTime"@));
        let i = choose|i: int| 0 <= i < keys.len() && keys[i] == "endTime"@;
        assert(keys[i] == "endTime"@);
    }
    if field(node, "schedule"@) is Some {
        assert(keys.contains("schedule"@));
        let i = choose|i: int| 0 <= i < keys.len() && keys[i] == "schedule"@;
        assert(keys[i] == "schedule"@);
    }
}

/// A recurrence of one day that starts at a moment of the calendar is clean
/// exactly where the moment has no offset, is in universal time unless a time
/// zone is named, lies at most 49 years ahead, and the time zone is known.
pub proof fn law_recurrences_start_at_a_moment(
    trigger: &Node,
    recurrence: &Node,
    kind: Seq<char>,
    year: Seq<char>,
    month: Seq<char>,
    day: Seq<char>,
    hour: Seq<char>,
    minute: Seq<char>,
    second: Seq<char>,
    zone: Seq<char>,
    now: Date,
    pointer: Seq<char>,
    file: &Document,
    workflow: &Workflow,
    scope: &ArmScope,
)
    requires
        is_plain(file, scope),
        keeps_state(workflow),
        holds_only(trigger, seq!["type"@, "inputs"@, "recurrence"@]),
        text_field(trigger, "type"@) == Some(kind),
        same_ignoring_case(kind, "Recurrence"@),
        field(trigger, "recurrence"@) == Some(*recurrence),
        recurrence.kind is Object,
        holds_only(recurrence, seq!["frequency"@, "interval"@, "startTime"@, "timeZone"@]),
        text_field(recurrence, "frequency"@) == Some("Day"@),
        field(recurrence, "interval"@) is Some,
        (field(recurrence, "interval"@)->Some_0).kind == Json::Number(Number::PosInt(1)),
        is_digits(year, 4),
        is_digits(month, 2),
        is_digits(day, 2),
        is_digits(hour, 2),
        is_digits(minute, 2),
        is_digits(second, 2),
        zone.len() == 0 || zone == seq!['Z'] || (zone.len() == 6 && (zone[0] == '+' || zone[0]
            == '-') && '0' <= zone[1] <= '9' && '0' <= zone[2] <= '9' && zone[3] == ':' && '0'
            <= zone[4] <= '9' && '0' <= zone[5] <= '9'),
        text_field(recurrence, "startTime"@) == Some(
            moment(year, month, day, hour, minute, second) + zone,
        ),
        field(recurrence, "timeZone"@) is Some ==> text_field(recurrence, "timeZone"@) is Some
            && is_unmarked(text_field(recurrence, "timeZone"@)->Some_0),
        file.clock is Some,
        is_date(now),
        day_number(now) == file.clock->Some_0 as int / 86400,
        now.year <= 9999,
        now.year >= 0,
        now.day <= 28,
    ensures
        (authored_trigger_findings(trigger, pointer, file, workflow, scope).len() == 0) == {
            let y = digits_value(year);
            let m = digits_value(month);
            let d = digits_value(day);
            &&& is_calendar_day(y, m, d)
            &&& is_time_of_day(digits_value(hour), digits_value(minute), digits_value(second))
            &&& zone.len() < 6
            &&& match text_field(recurrence, "timeZone"@) {
                Some(name) => is_zone_name(name),
                None => zone == seq!['Z'],
            }
            &&& y < now.year + 49 || (y == now.year + 49 && (m < now.month || (m == now.month && d
                <= now.day)))
        },
{
    let declared = field(trigger, "type"@)->Some_0;
    lemma_plain(file, scope);
    lemma_trigger_alone(trigger);
    lemma_trigger_types(kind);
    lemma_trigger_by_type(
        trigger,
        pointer,
        file,
        workflow,
        scope,
        &declared,
        kind,
        TriggerSpec::Recurrence,
    );
    lemma_start_alone(recurrence);
    reveal_strlit("Day");
    reveal_strlit("Second");
    reveal_strlit("Minute");
    reveal_strlit("Hour");
    reveal_strlit("Week");
    reveal_strlit("Month");
    reveal_strlit("Year");
    assert("Day"@.len() == 3 && "Day"@[0] == 'D');
    assert("Second"@.len() == 6 && "Second"@[0] == 'S');
    assert("Minute"@.len() == 6 && "Minute"@[0] == 'M');
    assert("Hour"@.len() == 4 && "Hour"@[0] == 'H');
    assert("Week"@.len() == 4 && "Week"@[0] == 'W');
    assert("Month"@.len() == 5 && "Month"@[0] == 'M');
    assert("Year"@.len() == 4 && "Year"@[0] == 'Y');
    assert(is_unmarked("Day"@)) by {
        assert("Day"@[1] == 'a' && "Day"@[2] == 'y');
    }
    lemma_unmarked_is_literal("Day"@);
    lemma_recurrence_frequency_names("Day"@);
    let text = moment(year, month, day, hour, minute, second) + zone;
    law_moments_are_told_by_their_numbers(
        year,
        month,
        day,
        hour,
        minute,
        second,
        seq!['0'],
        zone,
    );
    lemma_moment(year, month, day, hour, minute, second, zone);
    assert(is_unmarked(text)) by {
        assert forall|i: int| 0 <= i < text.len() implies #[trigger] text[i] != '@' by {
            if i >= 19 {
                assert(text[i] == zone[i - 19]);
                if zone.len() == 6 {
                    assert(i - 19 == 0 || i - 19 == 1 || i - 19 == 2 || i - 19 == 3 || i - 19 == 4
                        || i - 19 == 5);
                } else {
                    assert(zone[0] == 'Z');
                }
            } else {
                assert(digits_at(text, 0, 4) && digits_at(text, 5, 2) && digits_at(text, 8, 2)
                    && digits_at(text, 11, 2) && digits_at(text, 14, 2) && digits_at(text, 17, 2));
            }
        }
    }
    lemma_unmarked_is_literal(text);
    if let Some(name) = text_field(recurrence, "timeZone"@) {
        lemma_unmarked_is_literal(name);
    }
    let found = date_of(file.clock->Some_0 as int / 86400);
    assert(is_date(found) && day_number(found) == day_number(now));
    law_day_number_orders_dates(found, now);
    assert(today(file.clock->Some_0) == now);
    assert(years_later(now, 49) == (Date { year: now.year + 49, ..now }));
    let at = joined(pointer, "recurrence"@);
    let start = datetime_findings(recurrence, at, "startTime"@, "Recurrence startTime"@, file);
    let place = time_zone_findings(recurrence, at, file);
    assert(interval_findings(recurrence, at, file).len() == 0);
    assert(interval_limit_findings(recurrence, at, file).len() == 0);
    assert(schedule_findings(recurrence, at, file).len() == 0);
    assert((recurrence_object_findings(recurrence, at, file).len() == 0) == (start.len() == 0
        && place.len() == 0));
}

proof fn lemma_recurrence_frequency_names(name: Seq<char>)
    ensures
        one_of(name, recurrence_frequency_names()) == (name == "Second"@ || name == "Minute"@ || name == "Hour"@ || name == "Day"@ || name == "Week"@ || name == "Month"@ || name == "Year"@),
{
    let list = recurrence_frequency_names();
    if one_of(name, list) {
        let k = choose|k: int| 0 <= k < list.len() && list[k] == name;
        assert(list[k] == name);
    }
    assert(list[0] == "Second"@);
    assert(list[1] == "Minute"@);
    assert(list[2] == "Hour"@);
    assert(list[3] == "Day"@);
    assert(list[4] == "Week"@);
    assert(list[5] == "Month"@);
    assert(list[6] == "Year"@);
}

} // verus!
