//! Text primitives shared by every check: comparison, search, concatenation
//! and number rendering over the characters of a string.

use vstd::prelude::*;
use vstd::string::*;

verus! {

/// The code point of `c` after ASCII letters are lowered.
pub open spec fn folded(c: char) -> int {
    if 'A' <= c && c <= 'Z' {
        c as int + 32
    } else {
        c as int
    }
}

/// Equality up to the case of ASCII letters.
pub open spec fn same_ignoring_case(left: Seq<char>, right: Seq<char>) -> bool {
    &&& left.len() == right.len()
    &&& forall|i: int| 0 <= i < left.len() ==> #[trigger] folded(left[i]) == folded(right[i])
}

/// `part` stands in `text` at position `at`.
pub open spec fn occurs_at(text: Seq<char>, part: Seq<char>, at: int) -> bool {
    &&& 0 <= at
    &&& at + part.len() <= text.len()
    &&& text.subrange(at, at + part.len()) == part
}

/// `text` begins with `part`.
pub open spec fn has_prefix(text: Seq<char>, part: Seq<char>) -> bool {
    occurs_at(text, part, 0)
}

/// `text` ends with `part`.
pub open spec fn has_suffix(text: Seq<char>, part: Seq<char>) -> bool {
    occurs_at(text, part, text.len() - part.len())
}

/// `part` stands somewhere in `text`.
pub open spec fn has_part(text: Seq<char>, part: Seq<char>) -> bool {
    exists|at: int| #[trigger] occurs_at(text, part, at)
}

/// An optional text, taken by value.
pub open spec fn text_in(text: Option<&str>) -> Option<Seq<char>> {
    match text {
        Some(found) => Some(found@),
        None => None,
    }
}

/// The texts of a list of string slices.
pub open spec fn names(list: Seq<&str>) -> Seq<Seq<char>> {
    Seq::new(list.len(), |i: int| list[i]@)
}

/// The texts of a list of owned strings.
pub open spec fn texts(list: Seq<String>) -> Seq<Seq<char>> {
    Seq::new(list.len(), |i: int| list[i]@)
}

/// `text` is one of `allowed`.
pub open spec fn one_of(text: Seq<char>, allowed: Seq<Seq<char>>) -> bool {
    allowed.contains(text)
}

/// `text` is one of `allowed` up to ASCII case.
pub open spec fn one_of_ignoring_case(text: Seq<char>, allowed: Seq<Seq<char>>) -> bool {
    exists|i: int| 0 <= i < allowed.len() && same_ignoring_case(text, #[trigger] allowed[i])
}

/// The decimal digit with value `d`.
pub open spec fn digit(d: int) -> char {
    if d == 0 { '0' } else if d == 1 { '1' } else if d == 2 { '2' } else if d == 3 { '3' }
    else if d == 4 { '4' } else if d == 5 { '5' } else if d == 6 { '6' } else if d == 7 { '7' }
    else if d == 8 { '8' } else { '9' }
}

/// The decimal rendering of a natural number, without leading zeros.
pub open spec fn decimal_nat(n: nat) -> Seq<char>
    decreases n,
{
    if n < 10 {
        seq![digit(n as int)]
    } else {
        decimal_nat(n / 10).push(digit((n % 10) as int))
    }
}

/// The decimal rendering of an integer.
pub open spec fn decimal(n: int) -> Seq<char> {
    if n < 0 {
        seq!['-'] + decimal_nat((-n) as nat)
    } else {
        decimal_nat(n as nat)
    }
}

/// An ASCII decimal digit.
pub open spec fn is_digit(c: char) -> bool {
    '0' <= c && c <= '9'
}

/// A nonempty run of ASCII decimal digits.
pub open spec fn all_digits(text: Seq<char>) -> bool {
    forall|i: int| 0 <= i < text.len() ==> is_digit(#[trigger] text[i])
}

/// The number that a run of decimal digits denotes.
pub open spec fn digits_value(text: Seq<char>) -> nat
    decreases text.len(),
{
    if text.len() == 0 {
        0
    } else {
        digits_value(text.drop_last()) * 10 + (text.last() as int - '0' as int) as nat
    }
}

/// The integer that `text` spells, with an optional sign, whatever its size.
pub open spec fn spelled_integer(text: Seq<char>) -> Option<int> {
    if text.len() > 0 && all_digits(text) {
        Some(digits_value(text) as int)
    } else if text.len() > 1 && text[0] == '+' && all_digits(text.skip(1)) {
        Some(digits_value(text.skip(1)) as int)
    } else if text.len() > 1 && text[0] == '-' && all_digits(text.skip(1)) {
        Some(-(digits_value(text.skip(1)) as int))
    } else {
        None
    }
}

/// The signed 64-bit integer that `text` spells.
pub open spec fn spelled_i64(text: Seq<char>) -> Option<int> {
    match spelled_integer(text) {
        Some(n) if i64::MIN <= n <= i64::MAX => Some(n),
        _ => None,
    }
}

/// The unsigned 64-bit integer that `text` spells; a minus sign is never accepted.
pub open spec fn spelled_u64(text: Seq<char>) -> Option<int> {
    match spelled_integer(text) {
        Some(n) if 0 <= n <= u64::MAX && text[0] != '-' => Some(n),
        _ => None,
    }
}

/// The characters of `text`.
pub fn chars_of(text: &str) -> (chars: Vec<char>)
    ensures
        chars@ == text@,
{
    broadcast use axiom_spec_iter;

    let mut chars: Vec<char> = Vec::new();
    for c in iter: text.chars()
        invariant
            iter.seq() == text@,
            chars@ =~= iter.seq().take(iter.index() as int),
    {
        chars.push(c);
    }
    chars
}

/// Calls `String::from_iter`, which collects the characters in order.
#[verifier::external_body]
pub(crate) fn string_of(chars: &[char]) -> (text: String)
    ensures
        text@ == chars@,
{
    String::from_iter(chars)
}

/// The characters of `chars` from `start` up to `end`, as a string.
pub fn string_of_range(chars: &[char], start: usize, end: usize) -> (text: String)
    requires
        start <= end <= chars@.len(),
    ensures
        text@ == chars@.subrange(start as int, end as int),
{
    string_of(vstd::slice::slice_subrange(chars, start, end))
}

/// Equality of two texts.
pub fn text_eq(left: &str, right: &str) -> (same: bool)
    ensures
        same == (left@ == right@),
{
    left.to_owned() == right.to_owned()
}

/// An owned copy of `text`.
pub fn owned(text: &str) -> (copy: String)
    ensures
        copy@ == text@,
{
    text.to_owned()
}

/// `left` followed by `right`.
pub fn text2(left: &str, right: &str) -> (joined: String)
    ensures
        joined@ == left@ + right@,
{
    let mut joined = left.to_owned();
    joined.append(right);
    joined
}

/// Three texts, one after the other.
pub fn text3(a: &str, b: &str, c: &str) -> (joined: String)
    ensures
        joined@ == a@ + b@ + c@,
{
    let mut joined = text2(a, b);
    joined.append(c);
    joined
}

/// Four texts, one after the other.
pub fn text4(a: &str, b: &str, c: &str, d: &str) -> (joined: String)
    ensures
        joined@ == a@ + b@ + c@ + d@,
{
    let mut joined = text3(a, b, c);
    joined.append(d);
    joined
}

/// Five texts, one after the other.
pub fn text5(a: &str, b: &str, c: &str, d: &str, e: &str) -> (joined: String)
    ensures
        joined@ == a@ + b@ + c@ + d@ + e@,
{
    let mut joined = text4(a, b, c, d);
    joined.append(e);
    joined
}

/// Six texts, one after the other.
pub fn text6(a: &str, b: &str, c: &str, d: &str, e: &str, f: &str) -> (joined: String)
    ensures
        joined@ == a@ + b@ + c@ + d@ + e@ + f@,
{
    let mut joined = text5(a, b, c, d, e);
    joined.append(f);
    joined
}

/// Seven texts, one after the other.
pub fn text7(a: &str, b: &str, c: &str, d: &str, e: &str, f: &str, g: &str) -> (joined: String)
    ensures
        joined@ == a@ + b@ + c@ + d@ + e@ + f@ + g@,
{
    let mut joined = text6(a, b, c, d, e, f);
    joined.append(g);
    joined
}

/// Equality of two characters up to ASCII case.
pub fn char_eq_ignoring_case(left: char, right: char) -> (same: bool)
    ensures
        same == (folded(left) == folded(right)),
{
    let l: u32 = if 'A' <= left && left <= 'Z' {
        left as u32 + 32
    } else {
        left as u32
    };
    let r: u32 = if 'A' <= right && right <= 'Z' {
        right as u32 + 32
    } else {
        right as u32
    };
    l == r
}

/// Equality of two texts up to ASCII case.
pub fn eq_ignoring_case(left: &str, right: &str) -> (same: bool)
    ensures
        same == same_ignoring_case(left@, right@),
{
    let l = chars_of(left);
    let r = chars_of(right);
    if l.len() != r.len() {
        return false;
    }
    let mut i: usize = 0;
    while i < l.len()
        invariant
            i <= l.len(),
            l.len() == r.len(),
            l@ == left@,
            r@ == right@,
            forall|j: int| 0 <= j < i ==> #[trigger] folded(left@[j]) == folded(right@[j]),
        decreases l.len() - i,
    {
        if !char_eq_ignoring_case(l[i], r[i]) {
            assert(folded(left@[i as int]) != folded(right@[i as int]));
            return false;
        }
        i += 1;
    }
    true
}

/// `part` stands in `text` at position `at`.
pub fn stands_at(text: &[char], part: &[char], at: usize) -> (found: bool)
    ensures
        found == occurs_at(text@, part@, at as int),
{
    if at > text.len() || part.len() > text.len() - at {
        return false;
    }
    let length: usize = text.len();
    let mut i: usize = 0;
    while i < part.len()
        invariant
            i <= part@.len(),
            length == text@.len(),
            at + part@.len() <= length,
            forall|j: int| 0 <= j < i ==> text@[at + j] == #[trigger] part@[j],
        decreases part@.len() - i,
    {
        if text[at + i] != part[i] {
            assert(text@.subrange(at as int, at + part@.len())[i as int] != part@[i as int]);
            return false;
        }
        i += 1;
    }
    assert(text@.subrange(at as int, at + part@.len()) =~= part@);
    true
}

/// `text` begins with `part`.
pub fn starts_with(text: &str, part: &str) -> (found: bool)
    ensures
        found == has_prefix(text@, part@),
{
    let t = chars_of(text);
    let p = chars_of(part);
    stands_at(t.as_slice(), p.as_slice(), 0)
}

/// `text` ends with `part`.
pub fn ends_with(text: &str, part: &str) -> (found: bool)
    ensures
        found == has_suffix(text@, part@),
{
    let t = chars_of(text);
    let p = chars_of(part);
    if p.len() > t.len() {
        return false;
    }
    stands_at(t.as_slice(), p.as_slice(), t.len() - p.len())
}

/// `part` stands somewhere in `text`.
pub fn contains(text: &str, part: &str) -> (found: bool)
    ensures
        found == has_part(text@, part@),
{
    let t = chars_of(text);
    let p = chars_of(part);
    if p.len() > t.len() {
        return false;
    }
    let last: usize = t.len() - p.len();
    let mut at: usize = 0;
    loop
        invariant
            at <= last,
            last + p@.len() == t@.len(),
            t@ == text@,
            p@ == part@,
            forall|k: int| k < at ==> !#[trigger] occurs_at(text@, part@, k),
        decreases last - at,
    {
        if stands_at(t.as_slice(), p.as_slice(), at) {
            return true;
        }
        if at == last {
            return false;
        }
        at += 1;
    }
}

/// `text` is one of `allowed`.
pub fn in_list(text: &str, allowed: &[&str]) -> (found: bool)
    ensures
        found == one_of(text@, names(allowed@)),
{
    let mut i: usize = 0;
    while i < allowed.len()
        invariant
            i <= allowed@.len(),
            forall|j: int| 0 <= j < i ==> text@ != #[trigger] names(allowed@)[j],
        decreases allowed@.len() - i,
    {
        if text_eq(text, allowed[i]) {
            assert(names(allowed@)[i as int] == text@);
            return true;
        }
        i += 1;
    }
    false
}

/// `text` is one of `allowed` up to ASCII case.
pub fn in_list_ignoring_case(text: &str, allowed: &[&str]) -> (found: bool)
    ensures
        found == one_of_ignoring_case(text@, names(allowed@)),
{
    let mut i: usize = 0;
    while i < allowed.len()
        invariant
            i <= allowed@.len(),
            forall|j: int|
                0 <= j < i ==> !same_ignoring_case(text@, #[trigger] names(allowed@)[j]),
        decreases allowed@.len() - i,
    {
        if eq_ignoring_case(text, allowed[i]) {
            assert(same_ignoring_case(text@, names(allowed@)[i as int]));
            return true;
        }
        i += 1;
    }
    false
}

fn digit_char(d: u64) -> (c: char)
    requires
        d < 10,
    ensures
        c == digit(d as int),
{
    if d == 0 { '0' } else if d == 1 { '1' } else if d == 2 { '2' } else if d == 3 { '3' }
    else if d == 4 { '4' } else if d == 5 { '5' } else if d == 6 { '6' } else if d == 7 { '7' }
    else if d == 8 { '8' } else { '9' }
}

fn decimal_chars(n: u64) -> (chars: Vec<char>)
    ensures
        chars@ == decimal_nat(n as nat),
    decreases n,
{
    if n < 10 {
        let mut chars: Vec<char> = Vec::new();
        chars.push(digit_char(n));
        assert(chars@ =~= seq![digit(n as int)]);
        chars
    } else {
        let mut chars = decimal_chars(n / 10);
        chars.push(digit_char(n % 10));
        chars
    }
}

/// The decimal rendering of an unsigned number.
pub fn decimal_of_u64(n: u64) -> (text: String)
    ensures
        text@ == decimal(n as int),
{
    string_of(decimal_chars(n).as_slice())
}

/// The decimal rendering of a size or position.
pub fn decimal_of_usize(n: usize) -> (text: String)
    ensures
        text@ == decimal(n as int),
{
    decimal_of_u64(n as u64)
}

/// The decimal rendering of a signed number.
pub fn decimal_of_i64(n: i64) -> (text: String)
    ensures
        text@ == decimal(n as int),
{
    if n >= 0 {
        decimal_of_u64(n as u64)
    } else {
        let magnitude: u64 = (-(n as i128)) as u64;
        let digits = string_of(decimal_chars(magnitude).as_slice());
        let text = text2("-", digits.as_str());
        proof {
            reveal_strlit("-");
            assert("-"@ =~= seq!['-']);
        }
        text
    }
}

proof fn lemma_digits_value_prefix(text: Seq<char>, i: int)
    requires
        0 <= i < text.len(),
    ensures
        digits_value(text.take(i + 1)) == digits_value(text.take(i)) * 10 + (text[i] as int
            - '0' as int) as nat,
{
    assert(text.take(i + 1).drop_last() =~= text.take(i));
}

proof fn lemma_digits_value_grows(text: Seq<char>, i: int)
    requires
        0 <= i <= text.len(),
        all_digits(text),
    ensures
        digits_value(text.take(i)) <= digits_value(text),
    decreases text.len() - i,
{
    if i < text.len() {
        lemma_digits_value_grows(text, i + 1);
        lemma_digits_value_prefix(text, i);
        assert(is_digit(text[i]));
    } else {
        assert(text.take(i) =~= text);
    }
}

/// The value of a run of decimal digits, or nothing where a character is not
/// a digit or the value is above `limit`.
fn bounded_digits(text: &[char], limit: u64) -> (value: Option<u64>)
    ensures
        match value {
            Some(n) => all_digits(text@) && n == digits_value(text@) && n <= limit,
            None => !all_digits(text@) || digits_value(text@) > limit,
        },
{
    let mut n: u128 = 0;
    let mut i: usize = 0;
    while i < text.len()
        invariant
            i <= text@.len(),
            n <= limit <= u64::MAX,
            n == digits_value(text@.take(i as int)),
            forall|j: int| 0 <= j < i ==> is_digit(#[trigger] text@[j]),
        decreases text@.len() - i,
    {
        let c = text[i];
        if c < '0' || c > '9' {
            assert(!is_digit(text@[i as int]));
            return None;
        }
        proof {
            lemma_digits_value_prefix(text@, i as int);
        }
        n = n * 10 + (c as u32 - '0' as u32) as u128;
        i += 1;
        if n > limit as u128 {
            proof {
                if all_digits(text@) {
                    lemma_digits_value_grows(text@, i as int);
                }
            }
            return None;
        }
    }
    assert(text@.take(i as int) =~= text@);
    Some(n as u64)
}

/// The signed 64-bit integer that `text` spells.
pub fn parse_i64(text: &str) -> (value: Option<i64>)
    ensures
        value == (match spelled_i64(text@) {
            Some(n) => Some(n as i64),
            None => None,
        }),
{
    let chars = chars_of(text);
    if chars.len() == 0 {
        return None;
    }
    if chars[0] == '+' || chars[0] == '-' {
        proof {
            assert(!is_digit(text@[0]));
            assert(text@.skip(1) =~= text@.subrange(1, text@.len() as int));
        }
        if chars.len() == 1 {
            return None;
        }
        let digits = vstd::slice::slice_subrange(chars.as_slice(), 1, chars.len());
        if chars[0] == '+' {
            match bounded_digits(digits, 9223372036854775807) {
                Some(n) => Some(n as i64),
                None => None,
            }
        } else {
            match bounded_digits(digits, 9223372036854775808) {
                Some(n) => Some((-(n as i128)) as i64),
                None => None,
            }
        }
    } else {
        match bounded_digits(chars.as_slice(), 9223372036854775807) {
            Some(n) => Some(n as i64),
            None => None,
        }
    }
}

/// The unsigned 64-bit integer that `text` spells.
pub fn parse_u64(text: &str) -> (value: Option<u64>)
    ensures
        value == (match spelled_u64(text@) {
            Some(n) => Some(n as u64),
            None => None,
        }),
{
    let chars = chars_of(text);
    if chars.len() == 0 {
        return None;
    }
    if chars[0] == '+' || chars[0] == '-' {
        proof {
            assert(!is_digit(text@[0]));
            assert(text@.skip(1) =~= text@.subrange(1, text@.len() as int));
        }
        if chars.len() == 1 || chars[0] == '-' {
            return None;
        }
        let digits = vstd::slice::slice_subrange(chars.as_slice(), 1, chars.len());
        bounded_digits(digits, 18446744073709551615)
    } else {
        bounded_digits(chars.as_slice(), 18446744073709551615)
    }
}

} // verus!
