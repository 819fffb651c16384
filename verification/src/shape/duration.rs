//! Lengths of ISO 8601 durations in seconds, exactly.
//!
//! A duration may carry any number of digits, so its length is held as a
//! decimal number of any size.

use vstd::prelude::*;

use crate::shape::time::{digits_end, skip_digits};
use crate::text::{chars_of, is_digit};

verus! {

/// The number that decimal digits denote, the lowest first.
pub open spec fn digits_number(digits: Seq<u8>) -> nat
    decreases digits.len(),
{
    if digits.len() == 0 {
        0
    } else {
        digits[0] as nat + 10 * digits_number(digits.skip(1))
    }
}

pub open spec fn are_digits(digits: Seq<u8>) -> bool {
    forall|i: int| 0 <= i < digits.len() ==> #[trigger] digits[i] < 10
}

/// Ten to the power of `n`.
pub open spec fn tens(n: nat) -> nat
    decreases n,
{
    if n == 0 {
        1
    } else {
        10 * tens((n - 1) as nat)
    }
}

/// A number with a fraction: `amount` divided by ten to the power of `places`.
pub struct Fraction {
    pub amount: nat,
    pub places: nat,
}

/// `left` is less than `right`.
pub open spec fn less(left: Fraction, right: Fraction) -> bool {
    left.amount * tens(right.places) < right.amount * tens(left.places)
}

pub open spec fn whole(n: nat) -> Fraction {
    Fraction { amount: n, places: 0 }
}

/// `total` and `factor` times `part`, with the places of both.
pub open spec fn plus_times(total: Fraction, part: Fraction, factor: nat) -> Fraction {
    Fraction {
        amount: total.amount * tens(part.places) + part.amount * factor * tens(total.places),
        places: total.places + part.places,
    }
}

/// The number that the digits of `text` from `start` up to `end` denote.
pub open spec fn run_number(text: Seq<char>, start: int, end: int) -> nat
    decreases end - start,
{
    if start >= end {
        0
    } else {
        run_number(text, start, end - 1) * 10 + (text[end - 1] as int - '0' as int) as nat
    }
}

/// The number at `i` and the position after it: digits, and a fraction after
/// `.` or `,`. The whole part may be left out before a fraction.
pub open spec fn number_from(text: Seq<char>, i: int) -> Option<(Fraction, int)> {
    let end = digits_end(text, i);
    if end < text.len() && (text[end] == '.' || text[end] == ',') {
        let last = digits_end(text, end + 1);
        if last <= end + 1 {
            None
        } else {
            let places = (last - end - 1) as nat;
            Some(
                (
                    Fraction {
                        amount: run_number(text, i, end) * tens(places) + run_number(
                            text,
                            end + 1,
                            last,
                        ),
                        places,
                    },
                    last,
                ),
            )
        }
    } else if end <= i {
        None
    } else {
        Some((whole(run_number(text, i, end)), end))
    }
}

/// The seconds in one unit, where the unit has a fixed length.
pub open spec fn unit_seconds(unit: char, in_time: bool) -> Option<nat> {
    if in_time {
        if unit == 'H' {
            Some(3600)
        } else if unit == 'M' {
            Some(60)
        } else if unit == 'S' {
            Some(1)
        } else {
            None
        }
    } else if unit == 'W' {
        Some(604800)
    } else if unit == 'D' {
        Some(86400)
    } else {
        None
    }
}

/// The seconds of a duration read from `i`, added to `total`.
pub open spec fn seconds_from(
    text: Seq<char>,
    i: int,
    in_time: bool,
    any: bool,
    total: Fraction,
) -> Option<Fraction>
    decreases text.len() - i,
{
    if i < 0 || i >= text.len() {
        if any {
            Some(total)
        } else {
            None
        }
    } else if text[i] == 'T' {
        if in_time {
            None
        } else {
            seconds_from(text, i + 1, true, any, total)
        }
    } else {
        match number_from(text, i) {
            Some((part, end)) => if i < end < text.len() {
                match unit_seconds(text[end], in_time) {
                    Some(factor) => seconds_from(
                        text,
                        end + 1,
                        in_time,
                        true,
                        plus_times(total, part, factor),
                    ),
                    None => None,
                }
            } else {
                None
            },
            None => None,
        }
    }
}

/// The length of a duration of fixed length in seconds; nothing where the
/// text is no such duration. Months and years have no fixed length.
pub open spec fn duration_seconds(text: Seq<char>) -> Option<Fraction> {
    if text.len() > 0 && text[0] == 'P' {
        seconds_from(text, 1, false, false, whole(0))
    } else {
        None
    }
}

/// A decimal number of any size: digits, the lowest first, and how many of
/// them stand after the decimal mark.
pub struct Decimal {
    digits: Vec<u8>,
    places: usize,
}

impl View for Decimal {
    type V = Fraction;

    closed spec fn view(&self) -> Fraction {
        Fraction { amount: digits_number(self.digits@), places: self.places as nat }
    }
}

impl Decimal {
    #[verifier::type_invariant]
    spec fn holds_digits(&self) -> bool {
        are_digits(self.digits@)
    }
}

proof fn lemma_digits_push(digits: Seq<u8>, d: u8)
    ensures
        digits_number(digits.push(d)) == digits_number(digits) + d * tens(digits.len()),
    decreases digits.len(),
{
    if digits.len() == 0 {
        assert(digits.push(d).skip(1) =~= Seq::<u8>::empty());
        assert(digits_number(digits.push(d).skip(1)) == 0);
        assert(d * tens(0) == d) by (nonlinear_arith)
            requires
                tens(0) == 1,
        ;
    } else {
        assert(digits.push(d).skip(1) =~= digits.skip(1).push(d));
        lemma_digits_push(digits.skip(1), d);
        assert(tens(digits.len()) == 10 * tens((digits.len() - 1) as nat));
        assert(10 * (d * tens((digits.len() - 1) as nat)) == d * (10 * tens(
            (digits.len() - 1) as nat,
        ))) by (nonlinear_arith);
    }
}

/// The digit of `digits` at `i`, and zero beyond its end.
fn digit_at(digits: &Vec<u8>, i: usize) -> (d: u8)
    requires
        are_digits(digits@),
    ensures
        d == (if i < digits@.len() {
            digits@[i as int]
        } else {
            0
        }),
        d < 10,
{
    if i < digits.len() {
        digits[i]
    } else {
        0
    }
}

/// What the digits of `digits` from `i` on denote.
spec fn upper(digits: Seq<u8>, i: int) -> nat {
    if 0 <= i <= digits.len() {
        digits_number(digits.skip(i))
    } else {
        0
    }
}

proof fn lemma_upper_step(digits: Seq<u8>, i: int)
    requires
        0 <= i,
    ensures
        upper(digits, i) == (if i < digits.len() {
            digits[i] as nat
        } else {
            0
        }) + 10 * upper(digits, i + 1),
{
    if i < digits.len() {
        assert(digits.skip(i)[0] == digits[i]);
        assert(digits.skip(i).skip(1) =~= digits.skip(i + 1));
    } else if i == digits.len() {
        assert(digits.skip(i) =~= Seq::<u8>::empty());
    }
}

/// The digits of the sum of two numbers, the second taken `factor` times.
fn add_times(left: &Vec<u8>, right: &Vec<u8>, factor: u64) -> (sum: Vec<u8>)
    requires
        are_digits(left@),
        are_digits(right@),
        factor <= 604800,
    ensures
        are_digits(sum@),
        digits_number(sum@) == digits_number(left@) + factor * digits_number(right@),
{
    let mut sum: Vec<u8> = Vec::new();
    let mut carry: u64 = 0;
    let mut i: usize = 0;
    let length: usize = if left.len() > right.len() {
        left.len()
    } else {
        right.len()
    };
    let ghost goal = digits_number(left@) + factor * digits_number(right@);
    proof {
        assert(left@.skip(0) =~= left@);
        assert(right@.skip(0) =~= right@);
        assert(goal == 0 + tens(0) * (0 + upper(left@, 0) + factor * upper(right@, 0)))
            by (nonlinear_arith)
            requires
                goal == upper(left@, 0) + factor * upper(right@, 0),
                tens(0) == 1,
        ;
    }
    while i < length
        invariant
            i <= length,
            length >= left@.len(),
            length >= right@.len(),
            are_digits(left@),
            are_digits(right@),
            are_digits(sum@),
            factor <= 604800,
            carry < 10000000,
            sum@.len() == i,
            goal == digits_number(sum@) + tens(i as nat) * (carry + upper(left@, i as int)
                + factor * upper(right@, i as int)),
        decreases length - i,
    {
        let l = digit_at(left, i);
        let r = digit_at(right, i);
        assert(factor * r <= 604800 * 9) by (nonlinear_arith)
            requires
                factor <= 604800,
                r < 10,
        ;
        let value: u64 = carry + l as u64 + factor * r as u64;
        let d: u8 = (value % 10) as u8;
        proof {
            lemma_upper_step(left@, i as int);
            lemma_upper_step(right@, i as int);
            lemma_digits_push(sum@, d);
            let ul = upper(left@, i + 1);
            let ur = upper(right@, i + 1);
            let t = tens(i as nat);
            let rest = carry + upper(left@, i as int) + factor * upper(right@, i as int);
            assert(factor * (r + 10 * ur) == factor * r + 10 * (factor * ur))
                by (nonlinear_arith);
            assert(rest == value + 10 * (ul + factor * ur));
            let next = (value / 10) as nat;
            assert(value == 10 * (value / 10) + value % 10) by (nonlinear_arith);
            assert(t * rest == d * t + (10 * t) * (next + ul + factor * ur)) by (nonlinear_arith)
                requires
                    rest == 10 * next + d + 10 * (ul + factor * ur),
            ;
            assert(tens((i + 1) as nat) == 10 * t);
        }
        sum.push(d);
        carry = value / 10;
        i += 1;
    }
    proof {
        assert(upper(left@, i as int) == 0) by {
            if i == left@.len() {
                assert(left@.skip(i as int) =~= Seq::<u8>::empty());
            }
        }
        assert(upper(right@, i as int) == 0) by {
            if i == right@.len() {
                assert(right@.skip(i as int) =~= Seq::<u8>::empty());
            }
        }
        assert(factor * 0 == 0);
    }
    while carry > 0
        invariant
            are_digits(sum@),
            goal == digits_number(sum@) + tens(sum@.len()) * carry,
        decreases carry,
    {
        let d: u8 = (carry % 10) as u8;
        proof {
            lemma_digits_push(sum@, d);
            let t = tens(sum@.len());
            let next = (carry / 10) as nat;
            assert(carry == 10 * (carry / 10) + carry % 10) by (nonlinear_arith);
            assert(t * carry == d * t + (10 * t) * next) by (nonlinear_arith)
                requires
                    carry == 10 * next + d,
            ;
            assert(tens(sum@.push(d).len()) == 10 * t);
        }
        sum.push(d);
        carry = carry / 10;
    }
    assert(tens(sum@.len()) * 0 == 0) by (nonlinear_arith);
    sum
}

proof fn lemma_zeros(zeros: Seq<u8>, digits: Seq<u8>)
    requires
        forall|i: int| 0 <= i < zeros.len() ==> #[trigger] zeros[i] == 0,
    ensures
        digits_number(zeros + digits) == digits_number(digits) * tens(zeros.len()),
    decreases zeros.len(),
{
    if zeros.len() == 0 {
        assert(zeros + digits =~= digits);
        let n = digits_number(digits);
        assert(n * tens(0) == n) by (nonlinear_arith)
            requires
                tens(0) == 1,
        ;
    } else {
        assert((zeros + digits).skip(1) =~= zeros.skip(1) + digits);
        lemma_zeros(zeros.skip(1), digits);
        assert((zeros + digits)[0] == 0);
        assert(tens(zeros.len()) == 10 * tens((zeros.len() - 1) as nat));
        let n = digits_number(digits);
        let t = tens((zeros.len() - 1) as nat);
        assert(10 * (n * t) == n * (10 * t)) by (nonlinear_arith);
    }
}

/// The digits of a number times ten to the power of `count`.
fn shifted(digits: &Vec<u8>, count: usize) -> (result: Vec<u8>)
    requires
        are_digits(digits@),
    ensures
        are_digits(result@),
        digits_number(result@) == digits_number(digits@) * tens(count as nat),
{
    let mut result: Vec<u8> = Vec::new();
    let mut i: usize = 0;
    while i < count
        invariant
            i <= count,
            result@.len() == i,
            forall|j: int| 0 <= j < i ==> #[trigger] result@[j] == 0,
        decreases count - i,
    {
        result.push(0);
        i += 1;
    }
    let ghost zeros = result@;
    let mut k: usize = 0;
    assert(zeros + digits@.take(0) =~= zeros);
    while k < digits.len()
        invariant
            k <= digits@.len(),
            result@ == zeros + digits@.take(k as int),
        decreases digits@.len() - k,
    {
        result.push(digits[k]);
        assert(result@ =~= zeros + digits@.take(k + 1));
        k += 1;
    }
    assert(digits@.take(k as int) =~= digits@);
    proof {
        lemma_zeros(zeros, digits@);
    }
    result
}

/// The number that digits denote is less than another.
fn digits_less(left: &Vec<u8>, right: &Vec<u8>) -> (holds: bool)
    requires
        are_digits(left@),
        are_digits(right@),
    ensures
        holds == (digits_number(left@) < digits_number(right@)),
{
    let mut i: usize = if left.len() > right.len() {
        left.len()
    } else {
        right.len()
    };
    proof {
        assert(upper(left@, i as int) == 0) by {
            if i == left@.len() {
                assert(left@.skip(i as int) =~= Seq::<u8>::empty());
            }
        }
        assert(upper(right@, i as int) == 0) by {
            if i == right@.len() {
                assert(right@.skip(i as int) =~= Seq::<u8>::empty());
            }
        }
        assert(left@.skip(0) =~= left@);
        assert(right@.skip(0) =~= right@);
    }
    while i > 0
        invariant
            are_digits(left@),
            are_digits(right@),
            upper(left@, 0) == digits_number(left@),
            upper(right@, 0) == digits_number(right@),
            upper(left@, i as int) == upper(right@, i as int),
        decreases i,
    {
        i -= 1;
        proof {
            lemma_upper_step(left@, i as int);
            lemma_upper_step(right@, i as int);
        }
        let l = digit_at(left, i);
        let r = digit_at(right, i);
        if l != r {
            proof {
                lemma_upper_order(left@, right@, i as int);
                lemma_upper_order(right@, left@, i as int);
            }
            return l < r;
        }
    }
    false
}

/// Where the upper digits of one number are less, so is the number.
proof fn lemma_upper_order(left: Seq<u8>, right: Seq<u8>, i: int)
    requires
        0 <= i,
        are_digits(left),
        are_digits(right),
    ensures
        upper(left, i) < upper(right, i) ==> upper(left, 0) < upper(right, 0),
    decreases i,
{
    if i > 0 {
        lemma_upper_step(left, i - 1);
        lemma_upper_step(right, i - 1);
        lemma_upper_order(left, right, i - 1);
    }
}

impl Decimal {
    fn zero() -> (number: Decimal)
        ensures
            number@ == whole(0),
    {
        let number = Decimal { digits: Vec::new(), places: 0 };
        number
    }

    /// The number with the value of `n`.
    pub fn of(n: u64) -> (number: Decimal)
        ensures
            number@ == whole(n as nat),
    {
        let mut digits: Vec<u8> = Vec::new();
        let mut rest: u64 = n;
        assert(n == 0 + tens(0) * rest) by (nonlinear_arith)
            requires
                tens(0) == 1,
                n == rest,
        ;
        while rest > 0
            invariant
                are_digits(digits@),
                n == digits_number(digits@) + tens(digits@.len()) * rest,
            decreases rest,
        {
            let d: u8 = (rest % 10) as u8;
            proof {
                lemma_digits_push(digits@, d);
                let t = tens(digits@.len());
                let next = (rest / 10) as nat;
                assert(rest == 10 * (rest / 10) + rest % 10) by (nonlinear_arith);
                assert(t * rest == d * t + (10 * t) * next) by (nonlinear_arith)
                    requires
                        rest == 10 * next + d,
                ;
                assert(tens(digits@.push(d).len()) == 10 * t);
            }
            digits.push(d);
            rest = rest / 10;
        }
        assert(tens(digits@.len()) * 0 == 0) by (nonlinear_arith);
        Decimal { digits, places: 0 }
    }

    /// The number is less than `other`.
    pub fn less_than(&self, other: &Decimal) -> (holds: bool)
        ensures
            holds == less(self@, other@),
    {
        proof {
            use_type_invariant(&*self);
            use_type_invariant(&*other);
        }
        let left = shifted(&self.digits, other.places);
        let right = shifted(&other.digits, self.places);
        digits_less(&left, &right)
    }

    /// The number plus `factor` times `part`, or nothing where the result has
    /// more decimal places than can be counted.
    fn plus_times(&self, part: &Decimal, factor: u64) -> (sum: Option<Decimal>)
        requires
            factor <= 604800,
        ensures
            match sum {
                Some(total) => total@ == plus_times(self@, part@, factor as nat),
                None => self@.places + part@.places > usize::MAX,
            },
    {
        proof {
            use_type_invariant(&*self);
            use_type_invariant(&*part);
        }
        if part.places > usize::MAX - self.places {
            return None;
        }
        let left = shifted(&self.digits, part.places);
        let right = shifted(&part.digits, self.places);
        let digits = add_times(&left, &right, factor);
        proof {
            let a = part@.amount;
            let t = tens(self@.places);
            assert(factor * (a * t) == a * factor * t) by (nonlinear_arith);
        }
        Some(Decimal { digits, places: self.places + part.places })
    }
}

/// All characters of `text` from `start` up to `end` are decimal digits.
spec fn is_run(text: Seq<char>, start: int, end: int) -> bool {
    forall|i: int| start <= i < end ==> is_digit(#[trigger] text[i])
}

proof fn lemma_digits_end_run(text: Seq<char>, i: int)
    requires
        0 <= i <= text.len(),
    ensures
        is_run(text, i, digits_end(text, i)),
    decreases text.len() - i,
{
    if i < text.len() && is_digit(text[i]) {
        lemma_digits_end_run(text, i + 1);
    }
}

/// The digits of `text` from `start` up to `end`, the lowest first.
fn run_digits(text: &[char], start: usize, end: usize) -> (digits: Vec<u8>)
    requires
        start <= end <= text@.len(),
        is_run(text@, start as int, end as int),
    ensures
        are_digits(digits@),
        digits_number(digits@) == run_number(text@, start as int, end as int),
{
    let mut digits: Vec<u8> = Vec::new();
    let mut i: usize = end;
    let ghost goal = run_number(text@, start as int, end as int);
    assert(goal == 0 + tens(0) * run_number(text@, start as int, i as int)) by (nonlinear_arith)
        requires
            tens(0) == 1,
            goal == run_number(text@, start as int, i as int),
    ;
    while i > start
        invariant
            start <= i <= end <= text@.len(),
            is_run(text@, start as int, end as int),
            are_digits(digits@),
            goal == digits_number(digits@) + tens(digits@.len()) * run_number(
                text@,
                start as int,
                i as int,
            ),
        decreases i,
    {
        let c = text[i - 1];
        assert(is_digit(text@[i - 1]));
        let d: u8 = (c as u32 - '0' as u32) as u8;
        proof {
            lemma_digits_push(digits@, d);
            let t = tens(digits@.len());
            let rest = run_number(text@, start as int, i - 1);
            let now = run_number(text@, start as int, i as int);
            assert(t * now == d * t + (10 * t) * rest) by (nonlinear_arith)
                requires
                    now == rest * 10 + d,
            ;
            assert(tens(digits@.push(d).len()) == 10 * t);
        }
        digits.push(d);
        i -= 1;
    }
    assert(tens(digits@.len()) * 0 == 0) by (nonlinear_arith);
    digits
}

/// Read the number at `from`.
fn read_number(text: &[char], from: usize) -> (found: Option<(Decimal, usize)>)
    requires
        from <= text@.len(),
    ensures
        match found {
            Some((number, end)) => number_from(text@, from as int) == Some((number@, end as int))
                && from < end <= text@.len() && number@.places <= end - from,
            None => number_from(text@, from as int) is None,
        },
{
    let end = skip_digits(text, from);
    proof {
        lemma_digits_end_run(text@, from as int);
    }
    if end < text.len() && (text[end] == '.' || text[end] == ',') {
        let last = skip_digits(text, end + 1);
        if last <= end + 1 {
            return None;
        }
        proof {
            lemma_digits_end_run(text@, end + 1);
        }
        let places: usize = last - end - 1;
        let high = shifted(&run_digits(text, from, end), places);
        let low = run_digits(text, end + 1, last);
        let digits = add_times(&low, &high, 1);
        Some((Decimal { digits, places }, last))
    } else if end <= from {
        None
    } else {
        Some((Decimal { digits: run_digits(text, from, end), places: 0 }, end))
    }
}

fn fixed_unit(unit: char, in_time: bool) -> (seconds: Option<u64>)
    ensures
        match seconds {
            Some(n) => unit_seconds(unit, in_time) == Some(n as nat) && n <= 604800,
            None => unit_seconds(unit, in_time) is None,
        },
{
    if in_time {
        if unit == 'H' {
            Some(3600)
        } else if unit == 'M' {
            Some(60)
        } else if unit == 'S' {
            Some(1)
        } else {
            None
        }
    } else if unit == 'W' {
        Some(604800)
    } else if unit == 'D' {
        Some(86400)
    } else {
        None
    }
}

/// The length of a duration in seconds. Months and years are rejected because
/// they have no fixed length.
pub fn iso8601_duration_seconds(value: &str) -> (seconds: Option<Decimal>)
    ensures
        match seconds {
            Some(number) => duration_seconds(value@) == Some(number@),
            None => duration_seconds(value@) is None,
        },
{
    let chars = chars_of(value);
    let text = chars.as_slice();
    let length: usize = text.len();
    if length == 0 || text[0] != 'P' {
        return None;
    }
    let mut total = Decimal::zero();
    let mut any: bool = false;
    let mut in_time: bool = false;
    let mut i: usize = 1;
    while i < length
        invariant
            1 <= i <= length,
            length == text@.len(),
            text@ == value@,
            total@.places <= i,
            duration_seconds(value@) == seconds_from(text@, i as int, in_time, any, total@),
        decreases length - i,
    {
        if text[i] == 'T' {
            if in_time {
                return None;
            }
            in_time = true;
            i += 1;
        } else {
            match read_number(text, i) {
                None => {
                    return None;
                },
                Some((part, end)) => {
                    if end >= length {
                        return None;
                    }
                    match fixed_unit(text[end], in_time) {
                        None => {
                            return None;
                        },
                        Some(factor) => match total.plus_times(&part, factor) {
                            None => {
                                return None;
                            },
                            Some(sum) => {
                                total = sum;
                            },
                        },
                    }
                    any = true;
                    i = end + 1;
                },
            }
        }
    }
    if any {
        Some(total)
    } else {
        None
    }
}

} // verus!
