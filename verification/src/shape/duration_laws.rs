//! How long durations are: the units agree with one another, components add
//! up, and lengths are ordered as numbers are.

use vstd::prelude::*;

use crate::shape::duration::{
    duration_seconds, less, number_from, plus_times, run_number, seconds_from, tens, whole,
    Fraction,
};
use crate::shape::time::{amount_end, digits_end, is_duration, is_duration_from};
use crate::text::digits_value;

verus! {

/// One or more decimal digits.
pub open spec fn is_run(digits: Seq<char>) -> bool {
    digits.len() > 0 && forall|i: int| 0 <= i < digits.len() ==> '0' <= #[trigger] digits[i] <= '9'
}

proof fn lemma_digits_end_at(text: Seq<char>, i: int, end: int)
    requires
        0 <= i <= end <= text.len(),
        forall|k: int| i <= k < end ==> '0' <= #[trigger] text[k] <= '9',
        end < text.len() ==> !('0' <= text[end] <= '9'),
    ensures
        digits_end(text, i) == end,
    decreases end - i,
{
    if i < end {
        lemma_digits_end_at(text, i + 1, end);
    }
}

proof fn lemma_run_number(text: Seq<char>, start: int, end: int)
    requires
        0 <= start <= end <= text.len(),
        forall|k: int| start <= k < end ==> '0' <= #[trigger] text[k] <= '9',
    ensures
        run_number(text, start, end) == digits_value(text.subrange(start, end)),
    decreases end - start,
{
    let run = text.subrange(start, end);
    if start < end {
        lemma_run_number(text, start, end - 1);
        assert(run.drop_last() =~= text.subrange(start, end - 1));
        assert(run.last() == text[end - 1]);
    } else {
        assert(run =~= Seq::empty());
    }
}

/// A run of digits with its unit, read at `at`.
proof fn lemma_component(text: Seq<char>, at: int, digits: Seq<char>, unit: char)
    requires
        is_run(digits),
        0 <= at,
        at + digits.len() < text.len(),
        text.subrange(at, at + digits.len()) == digits,
        text[at + digits.len()] == unit,
        !('0' <= unit <= '9'),
        unit != '.',
        unit != ',',
    ensures
        number_from(text, at) == Some(
            (Fraction { amount: digits_value(digits), places: 0 }, at + digits.len()),
        ),
        amount_end(text, at) == Some(at + digits.len()),
        text[at] != 'T',
{
    let end = at + digits.len();
    assert forall|k: int| at <= k < end implies '0' <= #[trigger] text[k] <= '9' by {
        assert(text[k] == text.subrange(at, end)[k - at]);
    }
    lemma_digits_end_at(text, at, end);
    lemma_run_number(text, at, end);
}

proof fn lemma_plus_whole(total: nat, part: nat, factor: nat)
    ensures
        plus_times(
            Fraction { amount: total, places: 0 },
            Fraction { amount: part, places: 0 },
            factor,
        ) == (Fraction { amount: total + part * factor, places: 0 }),
{
    assert(tens(0) == 1);
    assert(total * 1 == total) by (nonlinear_arith);
    assert((part * factor) * 1 == part * factor) by (nonlinear_arith);
}

/// The units of a duration are what they are called: `PT…S` is that many
/// seconds, `PT…M` and `PT…H` so many times 60 and 3600, `P…D` and `P…W` so
/// many times 86400 and 604800. Months and years have no fixed length.
pub proof fn law_units_have_their_lengths(digits: Seq<char>)
    requires
        is_run(digits),
    ensures
        ({
            let n = digits_value(digits);
            &&& duration_seconds(seq!['P', 'T'] + digits + seq!['S']) == Some(
                Fraction { amount: n, places: 0 },
            )
            &&& duration_seconds(seq!['P', 'T'] + digits + seq!['M']) == Some(
                Fraction { amount: 60 * n, places: 0 },
            )
            &&& duration_seconds(seq!['P', 'T'] + digits + seq!['H']) == Some(
                Fraction { amount: 3600 * n, places: 0 },
            )
            &&& duration_seconds(seq!['P'] + digits + seq!['D']) == Some(
                Fraction { amount: 86400 * n, places: 0 },
            )
            &&& duration_seconds(seq!['P'] + digits + seq!['W']) == Some(
                Fraction { amount: 604800 * n, places: 0 },
            )
            &&& duration_seconds(seq!['P'] + digits + seq!['M']) is None
            &&& duration_seconds(seq!['P'] + digits + seq!['Y']) is None
        }),
{
    let n = digits_value(digits);
    lemma_time_unit(digits, 'S', 1);
    lemma_time_unit(digits, 'M', 60);
    lemma_time_unit(digits, 'H', 3600);
    lemma_day_unit(digits, 'D');
    lemma_day_unit(digits, 'W');
    lemma_day_unit(digits, 'M');
    lemma_day_unit(digits, 'Y');
    lemma_plus_whole(0, n, 86400);
    lemma_plus_whole(0, n, 604800);
}

proof fn lemma_time_unit(digits: Seq<char>, unit: char, factor: nat)
    requires
        is_run(digits),
        (unit == 'S' && factor == 1) || (unit == 'M' && factor == 60) || (unit == 'H' && factor
            == 3600),
    ensures
        duration_seconds(seq!['P', 'T'] + digits + seq![unit]) == Some(
            Fraction { amount: digits_value(digits) * factor, places: 0 },
        ),
{
    let text = seq!['P', 'T'] + digits + seq![unit];
    assert(text.subrange(2, 2 + digits.len() as int) =~= digits);
    lemma_component(text, 2, digits, unit);
    lemma_plus_whole(0, digits_value(digits), factor);
    assert(text[0] == 'P' && text[1] == 'T');
    let total = Fraction { amount: digits_value(digits) * factor, places: 0 };
    assert(seconds_from(text, text.len() as int, true, true, total) == Some(total));
    assert(seconds_from(text, 2, true, false, whole(0)) == Some(total));
    assert(seconds_from(text, 1, false, false, whole(0)) == Some(total));
}

proof fn lemma_day_unit(digits: Seq<char>, unit: char)
    requires
        is_run(digits),
        unit == 'D' || unit == 'W' || unit == 'M' || unit == 'Y',
    ensures
        ({
            let text = seq!['P'] + digits + seq![unit];
            let n = digits_value(digits);
            duration_seconds(text) == if unit == 'D' {
                Some(plus_times(whole(0), whole(n), 86400))
            } else if unit == 'W' {
                Some(plus_times(whole(0), whole(n), 604800))
            } else {
                None
            }
        }),
{
    let text = seq!['P'] + digits + seq![unit];
    let n = digits_value(digits);
    assert(text.subrange(1, 1 + digits.len() as int) =~= digits);
    lemma_component(text, 1, digits, unit);
    assert(text[0] == 'P');
    let day = plus_times(whole(0), whole(n), 86400);
    let week = plus_times(whole(0), whole(n), 604800);
    assert(seconds_from(text, text.len() as int, false, true, day) == Some(day));
    assert(seconds_from(text, text.len() as int, false, true, week) == Some(week));
}

/// One text for one length: 60 of a unit are one of the next, 24 hours are a
/// day, and 7 days a week.
pub proof fn law_units_agree(small: Seq<char>, large: Seq<char>)
    requires
        is_run(small),
        is_run(large),
    ensures
        digits_value(small) == 60 * digits_value(large) ==> duration_seconds(
            seq!['P', 'T'] + large + seq!['M'],
        ) == duration_seconds(seq!['P', 'T'] + small + seq!['S']) && duration_seconds(
            seq!['P', 'T'] + large + seq!['H'],
        ) == duration_seconds(seq!['P', 'T'] + small + seq!['M']),
        digits_value(small) == 24 * digits_value(large) ==> duration_seconds(
            seq!['P'] + large + seq!['D'],
        ) == duration_seconds(seq!['P', 'T'] + small + seq!['H']),
        digits_value(small) == 7 * digits_value(large) ==> duration_seconds(
            seq!['P'] + large + seq!['W'],
        ) == duration_seconds(seq!['P'] + small + seq!['D']),
{
    law_units_have_their_lengths(small);
    law_units_have_their_lengths(large);
}

/// The components of a duration add up.
pub proof fn law_components_add_up(
    days: Seq<char>,
    hours: Seq<char>,
    minutes: Seq<char>,
    seconds: Seq<char>,
)
    requires
        is_run(days),
        is_run(hours),
        is_run(minutes),
        is_run(seconds),
    ensures
        duration_seconds(
            seq!['P'] + days + seq!['D', 'T'] + hours + seq!['H'] + minutes + seq!['M'] + seconds
                + seq!['S'],
        ) == Some(
            Fraction {
                amount: 86400 * digits_value(days) + 3600 * digits_value(hours) + 60
                    * digits_value(minutes) + digits_value(seconds),
                places: 0,
            },
        ),
{
    let text = seq!['P'] + days + seq!['D', 'T'] + hours + seq!['H'] + minutes + seq!['M']
        + seconds + seq!['S'];
    let d = 1 + days.len() as int;
    let h = d + 2 + hours.len();
    let m = h + 1 + minutes.len();
    let s = m + 1 + seconds.len();
    assert(text.len() == s + 1);
    assert(text.subrange(1, d) =~= days);
    assert(text[d] == 'D' && text[d + 1] == 'T');
    assert(text.subrange(d + 2, h) =~= hours);
    assert(text[h] == 'H');
    assert(text.subrange(h + 1, m) =~= minutes);
    assert(text[m] == 'M');
    assert(text.subrange(m + 1, s) =~= seconds);
    assert(text[s] == 'S');
    lemma_component(text, 1, days, 'D');
    lemma_component(text, d + 2, hours, 'H');
    lemma_component(text, h + 1, minutes, 'M');
    lemma_component(text, m + 1, seconds, 'S');
    let a = 86400 * digits_value(days);
    let b = a + 3600 * digits_value(hours);
    let c = b + 60 * digits_value(minutes);
    let all = c + digits_value(seconds);
    lemma_plus_whole(0, digits_value(days), 86400);
    lemma_plus_whole(a, digits_value(hours), 3600);
    lemma_plus_whole(b, digits_value(minutes), 60);
    lemma_plus_whole(c, digits_value(seconds), 1);
    let of = |n: nat| Fraction { amount: n, places: 0 };
    assert(seconds_from(text, s + 1, true, true, of(all)) == Some(of(all)));
    assert(seconds_from(text, m + 1, true, true, of(c)) == Some(of(all)));
    assert(seconds_from(text, h + 1, true, true, of(b)) == Some(of(all)));
    assert(seconds_from(text, d + 2, true, true, of(a)) == Some(of(all)));
    assert(seconds_from(text, d + 1, false, true, of(a)) == Some(of(all)));
    assert(seconds_from(text, 1, false, false, whole(0)) == Some(of(all)));
}

proof fn lemma_digits_value_adds(left: Seq<char>, right: Seq<char>)
    ensures
        digits_value(left + right) == digits_value(left) * tens(right.len()) + digits_value(right),
    decreases right.len(),
{
    if right.len() == 0 {
        assert(left + right =~= left);
        assert(digits_value(left) * 1 == digits_value(left)) by (nonlinear_arith);
    } else {
        let whole_text = left + right;
        lemma_digits_value_adds(left, right.drop_last());
        assert(whole_text.drop_last() =~= left + right.drop_last());
        assert(whole_text.last() == right.last());
        let n = digits_value(left);
        let t = tens((right.len() - 1) as nat);
        let r = digits_value(right.drop_last());
        assert((n * t + r) * 10 == n * (10 * t) + r * 10) by (nonlinear_arith);
    }
}

/// A fraction of a unit counts by its decimals, after `.` as after `,`.
pub proof fn law_fractions_count_by_their_decimals(digits: Seq<char>, decimals: Seq<char>)
    requires
        is_run(digits),
        is_run(decimals),
    ensures
        duration_seconds(seq!['P', 'T'] + digits + seq!['.'] + decimals + seq!['S']) == Some(
            Fraction { amount: digits_value(digits + decimals), places: decimals.len() },
        ),
        duration_seconds(seq!['P', 'T'] + digits + seq![','] + decimals + seq!['S']) == Some(
            Fraction { amount: digits_value(digits + decimals), places: decimals.len() },
        ),
{
    lemma_fraction(digits, decimals, '.');
    lemma_fraction(digits, decimals, ',');
}

proof fn lemma_fraction(digits: Seq<char>, decimals: Seq<char>, mark: char)
    requires
        is_run(digits),
        is_run(decimals),
        mark == '.' || mark == ',',
    ensures
        duration_seconds(seq!['P', 'T'] + digits + seq![mark] + decimals + seq!['S']) == Some(
            Fraction { amount: digits_value(digits + decimals), places: decimals.len() },
        ),
{
    let text = seq!['P', 'T'] + digits + seq![mark] + decimals + seq!['S'];
    let end = 2 + digits.len() as int;
    let last = end + 1 + decimals.len();
    assert(text.subrange(2, end) =~= digits);
    assert(text.subrange(end + 1, last) =~= decimals);
    assert(text[end] == mark && text[last] == 'S');
    assert forall|k: int| 2 <= k < end implies '0' <= #[trigger] text[k] <= '9' by {
        assert(text[k] == digits[k - 2]);
    }
    assert forall|k: int| end + 1 <= k < last implies '0' <= #[trigger] text[k] <= '9' by {
        assert(text[k] == decimals[k - end - 1]);
    }
    lemma_digits_end_at(text, 2, end);
    lemma_digits_end_at(text, end + 1, last);
    lemma_run_number(text, 2, end);
    lemma_run_number(text, end + 1, last);
    lemma_digits_value_adds(digits, decimals);
    let part = Fraction { amount: digits_value(digits + decimals), places: decimals.len() };
    assert(number_from(text, 2) == Some((part, last)));
    let total = plus_times(whole(0), part, 1);
    assert(tens(0) == 1);
    assert(0 * tens(part.places) + part.amount * 1 * 1 == part.amount) by (nonlinear_arith);
    assert(total == part);
    assert(text[0] == 'P' && text[1] == 'T');
    assert(seconds_from(text, last + 1, true, true, part) == Some(part));
    assert(seconds_from(text, 2, true, false, whole(0)) == Some(part));
    assert(seconds_from(text, 1, false, false, whole(0)) == Some(part));
}

proof fn lemma_tens_positive(n: nat)
    ensures
        tens(n) > 0,
    decreases n,
{
    if n > 0 {
        lemma_tens_positive((n - 1) as nat);
    }
}

/// Lengths with equally many decimals are ordered as their digits are, and a
/// length does not change with a zero at its end.
pub proof fn law_lengths_are_ordered_as_numbers(left: nat, right: nat, places: nat)
    ensures
        less(
            Fraction { amount: left, places },
            Fraction { amount: right, places },
        ) == (left < right),
        !less(
            Fraction { amount: left, places },
            Fraction { amount: 10 * left, places: places + 1 },
        ),
        !less(
            Fraction { amount: 10 * left, places: places + 1 },
            Fraction { amount: left, places },
        ),
{
    lemma_tens_positive(places);
    let t = tens(places);
    assert((left * t < right * t) == (left < right)) by (nonlinear_arith)
        requires
            t > 0,
    ;
    assert(tens(places + 1) == 10 * t);
    assert(left * (10 * t) == (10 * left) * t) by (nonlinear_arith);
}

/// Runs of digits with units are durations, dates before `T` and times after.
pub proof fn law_components_are_durations(digits: Seq<char>, unit: char)
    requires
        is_run(digits),
        !('0' <= unit <= '9'),
        unit != '.',
        unit != ',',
        unit != 'T',
    ensures
        is_duration(seq!['P'] + digits + seq![unit]) == (unit == 'Y' || unit == 'M' || unit == 'W'
            || unit == 'D'),
        is_duration(seq!['P', 'T'] + digits + seq![unit]) == (unit == 'H' || unit == 'M' || unit
            == 'S'),
        !is_duration(digits + seq![unit]),
        !is_duration(seq!['P'] + digits),
        !is_duration(seq!['P', 'T'] + digits),
{
    let date = seq!['P'] + digits + seq![unit];
    assert(date.subrange(1, 1 + digits.len() as int) =~= digits);
    lemma_component(date, 1, digits, unit);
    assert(is_duration_from(date, date.len() as int, false, true));
    let time = seq!['P', 'T'] + digits + seq![unit];
    assert(time.subrange(2, 2 + digits.len() as int) =~= digits);
    lemma_component(time, 2, digits, unit);
    assert(is_duration_from(time, time.len() as int, true, true));
    assert(is_duration_from(time, 1, false, false) == is_duration_from(time, 2, true, false));
    assert((digits + seq![unit])[0] == digits[0]);
    let bare = seq!['P'] + digits;
    assert forall|k: int| 1 <= k < bare.len() implies '0' <= #[trigger] bare[k] <= '9' by {
        assert(bare[k] == digits[k - 1]);
    }
    lemma_digits_end_at(bare, 1, bare.len() as int);
    let open = seq!['P', 'T'] + digits;
    assert forall|k: int| 2 <= k < open.len() implies '0' <= #[trigger] open[k] <= '9' by {
        assert(open[k] == digits[k - 2]);
    }
    lemma_digits_end_at(open, 2, open.len() as int);
    assert(open[2] == digits[0]);
    assert(is_duration_from(open, 1, false, false) == is_duration_from(open, 2, true, false));
}

} // verus!
