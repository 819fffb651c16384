//! URI shape checks for HTTP endpoints and generic URI fields.
//!
//! Interpolation is legal anywhere a URI appears, so the rules evaluate
//! whatever literal portion is knowable: for HTTP endpoints the scheme has to
//! be compatible with `http` or `https` and the length within 2048 bytes; a
//! generic URI is parsed as RFC 3986. Interpolated parts are assumed to be
//! well formed.

use vstd::prelude::*;
use vstd::utf8::encode_utf8;

use crate::diagnostic::{findings, Diagnostic, Finding};
use crate::json::{as_string, text_of, Document, Node};
use crate::shape::arm_boundary::{checked, get_checked};
use crate::shape::dynamic_wdl::wdl_string_has_dynamic_value;
use crate::shape::report::{report_value, wrong_value};
use crate::text::{
    all_digits, chars_of, eq_ignoring_case, is_digit, occurs_at, same_ignoring_case, stands_at,
    string_of_range, text2, texts,
};
use crate::wdl::lex::is_letter;
use crate::wdl::value::{classified, is_dynamic, Classified, WdlStringTemplate, WdlStringValue};

verus! {

broadcast use crate::diagnostic::group_findings;

/// The first position at or after `from` that holds `c`.
pub open spec fn first_of(e: Seq<char>, c: char, from: int) -> Option<int>
    decreases e.len() - from,
{
    if from < 0 || from >= e.len() {
        None
    } else if e[from] == c {
        Some(from)
    } else {
        first_of(e, c, from + 1)
    }
}

/// The last position before `end` that holds `c`.
pub open spec fn last_of(e: Seq<char>, c: char, end: int) -> Option<int>
    decreases end,
{
    if end <= 0 || end > e.len() {
        None
    } else if e[end - 1] == c {
        Some(end - 1)
    } else {
        last_of(e, c, end - 1)
    }
}

/// The first position at or after `from` where `part` stands.
pub open spec fn first_part(e: Seq<char>, part: Seq<char>, from: int) -> Option<int>
    decreases e.len() - from,
{
    if from < 0 || from >= e.len() {
        None
    } else if occurs_at(e, part, from) {
        Some(from)
    } else {
        first_part(e, part, from + 1)
    }
}

pub open spec fn is_hex(c: char) -> bool {
    is_digit(c) || ('a' <= c && c <= 'f') || ('A' <= c && c <= 'F')
}

pub open spec fn is_alphanumeric(c: char) -> bool {
    is_letter(c) || is_digit(c)
}

/// The parts of a URI that differ in the characters they may hold.
#[derive(Debug, Clone, Copy, PartialEq, Eq, Structural)]
pub enum UriPart {
    RegName,
    UserInfo,
    Path,
    Query,
    FutureAddress,
}

/// Characters of a registered name besides letters and digits.
pub open spec fn is_name_mark(c: char) -> bool {
    c == '-' || c == '.' || c == '_' || c == '~' || c == '!' || c == '$' || c == '&' || c == '\''
        || c == '(' || c == ')' || c == '*' || c == '+' || c == ',' || c == ';' || c == '='
}

/// `c` may stand in the part as it is.
pub open spec fn is_part_char(part: UriPart, c: char) -> bool {
    ||| is_alphanumeric(c) || is_name_mark(c)
    ||| c == ':' && !(part is RegName)
    ||| c == '@' && (part is Path || part is Query)
    ||| c == '/' && (part is Path || part is Query)
    ||| c == '?' && part is Query
}

/// From `i` on, `e` holds characters of the part and percent-encoded bytes only.
pub open spec fn is_component_from(e: Seq<char>, part: UriPart, i: int) -> bool
    decreases e.len() - i,
{
    if i < 0 || i >= e.len() {
        true
    } else if is_part_char(part, e[i]) {
        is_component_from(e, part, i + 1)
    } else if e[i] == '%' && i + 2 < e.len() && is_hex(e[i + 1]) && is_hex(e[i + 2]) {
        is_component_from(e, part, i + 3)
    } else {
        false
    }
}

pub open spec fn is_component(e: Seq<char>, part: UriPart) -> bool {
    is_component_from(e, part, 0)
}

/// One or more decimal digits.
pub open spec fn is_port(e: Seq<char>) -> bool {
    e.len() > 0 && forall|i: int| 0 <= i < e.len() ==> is_digit(#[trigger] e[i])
}

/// One to four hexadecimal digits.
pub open spec fn is_hex_group(e: Seq<char>) -> bool {
    1 <= e.len() <= 4 && forall|i: int| 0 <= i < e.len() ==> is_hex(#[trigger] e[i])
}

/// A decimal number up to 255 without a leading zero.
pub open spec fn is_octet(e: Seq<char>) -> bool {
    &&& 1 <= e.len() <= 3
    &&& forall|i: int| 0 <= i < e.len() ==> is_digit(#[trigger] e[i])
    &&& e.len() > 1 ==> e[0] != '0'
    &&& e.len() == 3 ==> (e[0] == '1' || (e[0] == '2' && (e[1] < '5' || (e[1] == '5' && e[2]
        <= '5'))))
}

/// `count` octets separated by dots.
pub open spec fn is_dotted(e: Seq<char>, count: nat) -> bool
    decreases count,
{
    if count == 0 {
        false
    } else if count == 1 {
        is_octet(e)
    } else {
        match first_of(e, '.', 0) {
            Some(at) => is_octet(e.take(at)) && is_dotted(e.skip(at + 1), (count - 1) as nat),
            None => false,
        }
    }
}

/// The number of address groups in `e`, which is not empty: hexadecimal
/// groups separated by colons, the last of which may be a dotted address that
/// counts twice.
pub open spec fn group_count(e: Seq<char>, dotted: bool) -> Option<nat>
    decreases e.len(),
{
    match first_of(e, ':', 0) {
        Some(at) => if is_hex_group(e.take(at)) && 0 <= at < e.len() {
            match group_count(e.skip(at + 1), dotted) {
                Some(n) => Some(n + 1),
                None => None,
            }
        } else {
            None
        },
        None => if is_hex_group(e) {
            Some(1)
        } else if dotted && is_dotted(e, 4) {
            Some(2)
        } else {
            None
        },
    }
}

/// The number of address groups on one side of `::`, which may be empty.
pub open spec fn side_count(e: Seq<char>, dotted: bool) -> Option<nat> {
    if e.len() == 0 {
        Some(0)
    } else {
        group_count(e, dotted)
    }
}

/// An IPv6 address: eight groups, or fewer around one `::`.
pub open spec fn is_ipv6(e: Seq<char>) -> bool {
    match first_part(e, seq![':', ':'], 0) {
        Some(at) => match (side_count(e.take(at), false), side_count(e.skip(at + 2), true)) {
            (Some(left), Some(right)) => left + right <= 7,
            _ => false,
        },
        None => group_count(e, true) == Some(8nat),
    }
}

/// A future address form: `v`, hexadecimal digits, a dot, and address characters.
pub open spec fn is_future_address(e: Seq<char>) -> bool {
    &&& e.len() > 0
    &&& (e[0] == 'v' || e[0] == 'V')
    &&& match first_of(e, '.', 1) {
        Some(at) => 1 < at && at + 1 < e.len() && (forall|i: int|
            1 <= i < at ==> is_hex(#[trigger] e[i])) && forall|i: int|
            at < i < e.len() ==> is_part_char(UriPart::FutureAddress, #[trigger] e[i]),
        None => false,
    }
}

/// A host and optional port.
pub open spec fn is_host_port(e: Seq<char>) -> bool {
    if e.len() > 0 && e[0] == '[' {
        match first_of(e, ']', 1) {
            Some(at) => {
                let inside = e.subrange(1, at);
                let rest = e.skip(at + 1);
                &&& is_ipv6(inside) || is_future_address(inside)
                &&& rest.len() == 0 || (rest[0] == ':' && is_port(rest.skip(1)))
            },
            None => false,
        }
    } else {
        match last_of(e, ':', e.len() as int) {
            Some(at) => at > 0 && is_component(e.take(at), UriPart::RegName) && is_port(
                e.skip(at + 1),
            ),
            None => e.len() > 0 && is_component(e, UriPart::RegName),
        }
    }
}

/// A URI authority: optional user information before `@`, then a host.
pub open spec fn is_authority(e: Seq<char>) -> bool {
    match last_of(e, '@', e.len() as int) {
        Some(at) => is_component(e.take(at), UriPart::UserInfo) && is_host_port(e.skip(at + 1)),
        None => is_host_port(e),
    }
}

/// From `i` on, `e` holds characters of the part and percent-encoded bytes
/// only, the last of which may still want digits.
pub open spec fn may_begin_component_from(e: Seq<char>, part: UriPart, i: int) -> bool
    decreases e.len() - i,
{
    if i < 0 || i >= e.len() {
        true
    } else if is_part_char(part, e[i]) {
        may_begin_component_from(e, part, i + 1)
    } else if e[i] == '%' && (i + 1 < e.len() ==> is_hex(e[i + 1])) && (i + 2 < e.len() ==> is_hex(
        e[i + 2],
    )) {
        i + 3 >= e.len() || may_begin_component_from(e, part, i + 3)
    } else {
        false
    }
}

pub open spec fn may_begin_component(e: Seq<char>, part: UriPart) -> bool {
    may_begin_component_from(e, part, 0)
}

/// The beginning of a host and optional port. Nothing is asked of an address
/// in brackets before the bracket is closed.
pub open spec fn may_begin_host_port(e: Seq<char>) -> bool {
    if e.len() > 0 && e[0] == '[' {
        match first_of(e, ']', 1) {
            Some(at) => {
                let inside = e.subrange(1, at);
                let rest = e.skip(at + 1);
                &&& is_ipv6(inside) || is_future_address(inside)
                &&& rest.len() == 0 || (rest[0] == ':' && all_digits(rest.skip(1)))
            },
            None => true,
        }
    } else {
        match last_of(e, ':', e.len() as int) {
            Some(at) => at > 0 && is_component(e.take(at), UriPart::RegName) && all_digits(
                e.skip(at + 1),
            ),
            None => may_begin_component(e, UriPart::RegName),
        }
    }
}

/// The beginning of a URI authority: of a host, or of user information where
/// no `@` has ended it yet.
pub open spec fn may_begin_authority(e: Seq<char>) -> bool {
    match last_of(e, '@', e.len() as int) {
        Some(at) => is_component(e.take(at), UriPart::UserInfo) && may_begin_host_port(
            e.skip(at + 1),
        ),
        None => may_begin_component(e, UriPart::UserInfo) || may_begin_host_port(e),
    }
}

/// A control character or whitespace stands in `e`.
pub open spec fn has_invalid_char(e: Seq<char>) -> bool {
    exists|i: int| 0 <= i < e.len() && is_invalid_char(#[trigger] e[i])
}

pub open spec fn is_invalid_char(c: char) -> bool {
    c <= ' ' || c == '\x7f'
}

/// A URI scheme: a letter, then letters, digits, `+`, `-` and `.`.
pub open spec fn is_scheme(e: Seq<char>) -> bool {
    &&& e.len() > 0
    &&& is_letter(e[0])
    &&& forall|i: int| 1 <= i < e.len() ==> is_scheme_char(#[trigger] e[i])
}

pub open spec fn is_scheme_char(c: char) -> bool {
    is_alphanumeric(c) || c == '+' || c == '-' || c == '.'
}

/// The hierarchical part of a URI, after its scheme.
pub open spec fn is_hierarchy(scheme: Seq<char>, e: Seq<char>) -> bool {
    if e.len() >= 2 && e[0] == '/' && e[1] == '/' {
        let rest = e.skip(2);
        match first_of(rest, '/', 0) {
            Some(at) => is_component(rest.skip(at + 1), UriPart::Path) && if at == 0 {
                same_ignoring_case(scheme, "file"@)
            } else {
                is_authority(rest.take(at))
            },
            None => rest.len() > 0 && is_authority(rest),
        }
    } else {
        is_component(e, UriPart::Path)
    }
}

/// The part of a URI between its scheme and its fragment.
pub open spec fn is_hierarchy_and_query(scheme: Seq<char>, e: Seq<char>) -> bool {
    match first_of(e, '?', 0) {
        Some(at) => is_component(e.skip(at + 1), UriPart::Query) && is_hierarchy(
            scheme,
            e.take(at),
        ),
        None => is_hierarchy(scheme, e),
    }
}

/// A URI, in the sense of RFC 3986.
pub open spec fn is_uri(e: Seq<char>) -> bool {
    &&& !has_invalid_char(e)
    &&& match first_of(e, ':', 0) {
        Some(colon) => {
            let scheme = e.take(colon);
            let rest = e.skip(colon + 1);
            &&& is_scheme(scheme)
            &&& match first_of(rest, '#', 0) {
                Some(at) => is_component(rest.skip(at + 1), UriPart::Query)
                    && is_hierarchy_and_query(scheme, rest.take(at)),
                None => is_hierarchy_and_query(scheme, rest),
            }
        },
        None => false,
    }
}

pub open spec fn is_http_scheme(e: Seq<char>) -> bool {
    same_ignoring_case(e, "http"@) || same_ignoring_case(e, "https"@)
}

/// First position at or after `i` that ends an authority.
pub open spec fn authority_end(e: Seq<char>, i: int) -> int
    decreases e.len() - i,
{
    if 0 <= i < e.len() && e[i] != '/' && e[i] != '?' && e[i] != '#' {
        authority_end(e, i + 1)
    } else {
        i
    }
}

/// An absolute URL with the scheme `http` or `https` and a valid authority.
pub open spec fn is_http_url(e: Seq<char>) -> bool {
    &&& !has_invalid_char(e)
    &&& match first_part(e, seq![':', '/', '/'], 0) {
        Some(at) => {
            let authority = e.subrange(at + 3, authority_end(e, at + 3));
            &&& is_http_scheme(e.take(at))
            &&& authority.len() > 0
            &&& is_authority(authority)
        },
        None => false,
    }
}

/// `short` is the beginning of `long` up to ASCII case.
pub open spec fn begins_ignoring_case(long: Seq<char>, short: Seq<char>) -> bool {
    short.len() <= long.len() && same_ignoring_case(long.take(short.len() as int), short)
}

/// A literal prefix that an interpolation may complete to an HTTP URL.
pub open spec fn may_begin_http_url(prefix: Seq<char>) -> bool {
    match first_part(prefix, seq![':', '/', '/'], 0) {
        Some(at) => {
            let end = authority_end(prefix, at + 3);
            let authority = prefix.subrange(at + 3, end);
            &&& is_http_scheme(prefix.take(at))
            &&& if end < prefix.len() {
                is_authority(authority)
            } else {
                may_begin_authority(authority)
            }
        },
        None => begins_ignoring_case("http://"@, prefix) || begins_ignoring_case(
            "https://"@,
            prefix,
        ),
    }
}

/// A template whose literal parts may belong to an HTTP URL.
pub open spec fn may_be_http_url(segments: Seq<Seq<char>>) -> bool {
    &&& forall|i: int| 0 <= i < segments.len() ==> !has_invalid_char(#[trigger] segments[i])
    &&& may_begin_http_url(segments.first())
}

/// The number of bytes that `segments` take together.
pub open spec fn total_bytes(segments: Seq<Seq<char>>) -> nat
    decreases segments.len(),
{
    if segments.len() == 0 {
        0
    } else {
        total_bytes(segments.drop_last()) + encode_utf8(segments.last()).len()
    }
}

fn find_char(e: &[char], c: char, from: usize) -> (found: Option<usize>)
    ensures
        e@.len() <= usize::MAX,
        match found {
            Some(at) => first_of(e@, c, from as int) == Some(at as int) && from <= at < e@.len()
                && e@[at as int] == c,
            None => first_of(e@, c, from as int) is None,
        },
{
    let mut i: usize = from;
    while i < e.len()
        invariant
            from <= i,
            first_of(e@, c, from as int) == first_of(e@, c, i as int),
        decreases e@.len() - i,
    {
        if e[i] == c {
            return Some(i);
        }
        i += 1;
    }
    None
}

fn find_last_char(e: &[char], c: char) -> (found: Option<usize>)
    ensures
        e@.len() <= usize::MAX,
        match found {
            Some(at) => last_of(e@, c, e@.len() as int) == Some(at as int) && at < e@.len(),
            None => last_of(e@, c, e@.len() as int) is None,
        },
{
    let mut i: usize = e.len();
    while i > 0
        invariant
            i <= e@.len(),
            last_of(e@, c, e@.len() as int) == last_of(e@, c, i as int),
        decreases i,
    {
        if e[i - 1] == c {
            return Some(i - 1);
        }
        i -= 1;
    }
    None
}

fn find_part(e: &[char], part: &[char]) -> (found: Option<usize>)
    ensures
        e@.len() <= usize::MAX,
        match found {
            Some(at) => first_part(e@, part@, 0) == Some(at as int) && at + part@.len()
                <= e@.len(),
            None => first_part(e@, part@, 0) is None,
        },
{
    let mut i: usize = 0;
    while i < e.len()
        invariant
            first_part(e@, part@, 0) == first_part(e@, part@, i as int),
        decreases e@.len() - i,
    {
        if stands_at(e, part, i) {
            return Some(i);
        }
        i += 1;
    }
    None
}

fn slice_of(e: &[char], start: usize, end: usize) -> (part: &[char])
    requires
        start <= end <= e@.len(),
    ensures
        part@ == e@.subrange(start as int, end as int),
        start == 0 ==> part@ == e@.take(end as int),
        end == e@.len() ==> part@ == e@.skip(start as int),
{
    let part = vstd::slice::slice_subrange(e, start, end);
    assert(start == 0 ==> part@ =~= e@.take(end as int));
    assert(end == e@.len() ==> part@ =~= e@.skip(start as int));
    part
}

fn hex_digit(c: char) -> (holds: bool)
    ensures
        holds == is_hex(c),
{
    ('0' <= c && c <= '9') || ('a' <= c && c <= 'f') || ('A' <= c && c <= 'F')
}

fn alphanumeric(c: char) -> (holds: bool)
    ensures
        holds == is_alphanumeric(c),
{
    ('a' <= c && c <= 'z') || ('A' <= c && c <= 'Z') || ('0' <= c && c <= '9')
}

fn part_char(part: UriPart, c: char) -> (holds: bool)
    ensures
        holds == is_part_char(part, c),
{
    let mark = c == '-' || c == '.' || c == '_' || c == '~' || c == '!' || c == '$' || c == '&' || c
        == '\'' || c == '(' || c == ')' || c == '*' || c == '+' || c == ',' || c == ';' || c == '=';
    let path = matches!(part, UriPart::Path | UriPart::Query);
    alphanumeric(c) || mark || (c == ':' && !matches!(part, UriPart::RegName)) || (c == '@' && path)
        || (c == '/' && path) || (c == '?' && matches!(part, UriPart::Query))
}

fn valid_encoded_component(e: &[char], part: UriPart) -> (holds: bool)
    ensures
        holds == is_component(e@, part),
{
    let length: usize = e.len();
    let mut i: usize = 0;
    while i < length
        invariant
            length == e@.len(),
            is_component(e@, part) == is_component_from(e@, part, i as int),
        decreases length - i,
    {
        if part_char(part, e[i]) {
            i += 1;
        } else if e[i] == '%' && length - i > 2 && hex_digit(e[i + 1]) && hex_digit(e[i + 2]) {
            i += 3;
        } else {
            return false;
        }
    }
    true
}

fn all_decimal(e: &[char]) -> (holds: bool)
    ensures
        holds == forall|i: int| 0 <= i < e@.len() ==> is_digit(#[trigger] e@[i]),
{
    let mut i: usize = 0;
    while i < e.len()
        invariant
            i <= e@.len(),
            forall|j: int| 0 <= j < i ==> is_digit(#[trigger] e@[j]),
        decreases e@.len() - i,
    {
        if e[i] < '0' || e[i] > '9' {
            assert(!is_digit(e@[i as int]));
            return false;
        }
        i += 1;
    }
    true
}

fn valid_port(e: &[char]) -> (holds: bool)
    ensures
        holds == is_port(e@),
{
    e.len() > 0 && all_decimal(e)
}

fn valid_hex_group(e: &[char]) -> (holds: bool)
    ensures
        holds == is_hex_group(e@),
{
    if e.len() < 1 || e.len() > 4 {
        return false;
    }
    let mut i: usize = 0;
    while i < e.len()
        invariant
            i <= e@.len(),
            forall|j: int| 0 <= j < i ==> is_hex(#[trigger] e@[j]),
        decreases e@.len() - i,
    {
        if !hex_digit(e[i]) {
            assert(!is_hex(e@[i as int]));
            return false;
        }
        i += 1;
    }
    true
}

fn valid_octet(e: &[char]) -> (holds: bool)
    ensures
        holds == is_octet(e@),
{
    if e.len() < 1 || e.len() > 3 || !all_decimal(e) {
        return false;
    }
    if e.len() > 1 && e[0] == '0' {
        return false;
    }
    e.len() < 3 || e[0] == '1' || (e[0] == '2' && (e[1] < '5' || (e[1] == '5' && e[2] <= '5')))
}

fn valid_dotted(e: &[char], count: usize) -> (holds: bool)
    ensures
        holds == is_dotted(e@, count as nat),
    decreases count,
{
    if count == 0 {
        return false;
    }
    if count == 1 {
        return valid_octet(e);
    }
    match find_char(e, '.', 0) {
        Some(at) => valid_octet(slice_of(e, 0, at)) && valid_dotted(
            slice_of(e, at + 1, e.len()),
            count - 1,
        ),
        None => false,
    }
}

/// The number of address groups in `e`, up to `limit`; more count as none.
fn count_groups(e: &[char], dotted: bool, limit: usize) -> (count: Option<usize>)
    requires
        limit <= 8,
    ensures
        match count {
            Some(n) => group_count(e@, dotted) == Some(n as nat) && n <= limit,
            None => match group_count(e@, dotted) {
                Some(n) => n > limit,
                None => true,
            },
        },
    decreases e@.len(),
{
    match find_char(e, ':', 0) {
        Some(at) => {
            if !valid_hex_group(slice_of(e, 0, at)) {
                return None;
            }
            if limit == 0 {
                return None;
            }
            let rest = slice_of(e, at + 1, e.len());
            match count_groups(rest, dotted, limit - 1) {
                Some(n) => Some(n + 1),
                None => None,
            }
        },
        None => {
            let found: usize = if valid_hex_group(e) {
                1
            } else if dotted && valid_dotted(e, 4) {
                2
            } else {
                return None;
            };
            if found <= limit {
                Some(found)
            } else {
                None
            }
        },
    }
}

fn count_side(e: &[char], dotted: bool) -> (count: Option<usize>)
    ensures
        match count {
            Some(n) => side_count(e@, dotted) == Some(n as nat) && n <= 8,
            None => match side_count(e@, dotted) {
                Some(n) => n > 8,
                None => true,
            },
        },
{
    if e.len() == 0 {
        Some(0)
    } else {
        count_groups(e, dotted, 8)
    }
}

fn valid_ipv6(e: &[char]) -> (holds: bool)
    ensures
        holds == is_ipv6(e@),
{
    let mark: Vec<char> = vec![':', ':'];
    assert(mark@ =~= seq![':', ':']);
    match find_part(e, mark.as_slice()) {
        Some(at) => match (
            count_side(slice_of(e, 0, at), false),
            count_side(slice_of(e, at + 2, e.len()), true),
        ) {
            (Some(left), Some(right)) => left + right <= 7,
            _ => false,
        },
        None => match count_groups(e, true, 8) {
            Some(n) => n == 8,
            None => false,
        },
    }
}

fn valid_ipv_future(e: &[char]) -> (holds: bool)
    ensures
        holds == is_future_address(e@),
{
    if e.len() == 0 || !(e[0] == 'v' || e[0] == 'V') {
        return false;
    }
    match find_char(e, '.', 1) {
        None => false,
        Some(at) => {
            if at == 1 || at + 1 == e.len() {
                return false;
            }
            let mut i: usize = 1;
            while i < at
                invariant
                    1 <= i <= at < e@.len(),
                    forall|j: int| 1 <= j < i ==> is_hex(#[trigger] e@[j]),
                    first_of(e@, '.', 1) == Some(at as int),
                decreases at - i,
            {
                if !hex_digit(e[i]) {
                    assert(!is_hex(e@[i as int]));
                    return false;
                }
                i += 1;
            }
            let mut k: usize = at + 1;
            while k < e.len()
                invariant
                    at < k <= e@.len(),
                    forall|j: int|
                        at < j < k ==> is_part_char(UriPart::FutureAddress, #[trigger] e@[j]),
                    first_of(e@, '.', 1) == Some(at as int),
                decreases e@.len() - k,
            {
                if !part_char(UriPart::FutureAddress, e[k]) {
                    assert(!is_part_char(UriPart::FutureAddress, e@[k as int]));
                    return false;
                }
                k += 1;
            }
            true
        },
    }
}

fn valid_host_port(e: &[char]) -> (holds: bool)
    ensures
        holds == is_host_port(e@),
{
    if e.len() > 0 && e[0] == '[' {
        match find_char(e, ']', 1) {
            None => false,
            Some(at) => {
                let inside = slice_of(e, 1, at);
                let rest = slice_of(e, at + 1, e.len());
                if !valid_ipv6(inside) && !valid_ipv_future(inside) {
                    return false;
                }
                rest.len() == 0 || (rest[0] == ':' && valid_port(slice_of(rest, 1, rest.len())))
            },
        }
    } else {
        match find_last_char(e, ':') {
            Some(at) => at > 0 && valid_encoded_component(slice_of(e, 0, at), UriPart::RegName)
                && valid_port(slice_of(e, at + 1, e.len())),
            None => e.len() > 0 && valid_encoded_component(e, UriPart::RegName),
        }
    }
}

fn valid_uri_authority(e: &[char]) -> (holds: bool)
    ensures
        holds == is_authority(e@),
{
    match find_last_char(e, '@') {
        Some(at) => valid_encoded_component(slice_of(e, 0, at), UriPart::UserInfo)
            && valid_host_port(slice_of(e, at + 1, e.len())),
        None => valid_host_port(e),
    }
}

fn valid_component_beginning(e: &[char], part: UriPart) -> (holds: bool)
    ensures
        holds == may_begin_component(e@, part),
{
    let length: usize = e.len();
    let mut i: usize = 0;
    while i < length
        invariant
            length == e@.len(),
            may_begin_component(e@, part) == may_begin_component_from(e@, part, i as int),
        decreases length - i,
    {
        if part_char(part, e[i]) {
            i += 1;
        } else if e[i] == '%' && (length - i <= 1 || hex_digit(e[i + 1])) && (length - i <= 2
            || hex_digit(e[i + 2])) {
            if length - i <= 3 {
                return true;
            }
            i += 3;
        } else {
            return false;
        }
    }
    true
}

fn valid_host_port_beginning(e: &[char]) -> (holds: bool)
    ensures
        holds == may_begin_host_port(e@),
{
    if e.len() > 0 && e[0] == '[' {
        match find_char(e, ']', 1) {
            None => true,
            Some(at) => {
                let inside = slice_of(e, 1, at);
                let rest = slice_of(e, at + 1, e.len());
                if !valid_ipv6(inside) && !valid_ipv_future(inside) {
                    return false;
                }
                rest.len() == 0 || (rest[0] == ':' && all_decimal(slice_of(rest, 1, rest.len())))
            },
        }
    } else {
        match find_last_char(e, ':') {
            Some(at) => at > 0 && valid_encoded_component(slice_of(e, 0, at), UriPart::RegName)
                && all_decimal(slice_of(e, at + 1, e.len())),
            None => valid_component_beginning(e, UriPart::RegName),
        }
    }
}

fn valid_authority_beginning(e: &[char]) -> (holds: bool)
    ensures
        holds == may_begin_authority(e@),
{
    match find_last_char(e, '@') {
        Some(at) => valid_encoded_component(slice_of(e, 0, at), UriPart::UserInfo)
            && valid_host_port_beginning(slice_of(e, at + 1, e.len())),
        None => valid_component_beginning(e, UriPart::UserInfo) || valid_host_port_beginning(e),
    }
}

fn has_invalid_uri_char(e: &[char]) -> (found: bool)
    ensures
        found == has_invalid_char(e@),
{
    let mut i: usize = 0;
    while i < e.len()
        invariant
            i <= e@.len(),
            forall|j: int| 0 <= j < i ==> !is_invalid_char(#[trigger] e@[j]),
        decreases e@.len() - i,
    {
        if e[i] <= ' ' || e[i] == '\x7f' {
            assert(is_invalid_char(e@[i as int]));
            return true;
        }
        i += 1;
    }
    false
}

fn valid_scheme(e: &[char]) -> (holds: bool)
    ensures
        holds == is_scheme(e@),
{
    if e.len() == 0 || !(('a' <= e[0] && e[0] <= 'z') || ('A' <= e[0] && e[0] <= 'Z')) {
        return false;
    }
    let mut i: usize = 1;
    while i < e.len()
        invariant
            1 <= i <= e@.len(),
            is_letter(e@[0]),
            forall|j: int| 1 <= j < i ==> is_scheme_char(#[trigger] e@[j]),
        decreases e@.len() - i,
    {
        if !(alphanumeric(e[i]) || e[i] == '+' || e[i] == '-' || e[i] == '.') {
            assert(!is_scheme_char(e@[i as int]));
            return false;
        }
        i += 1;
    }
    true
}

fn slice_eq_ignoring_case(e: &[char], text: &str) -> (same: bool)
    ensures
        same == same_ignoring_case(e@, text@),
{
    let piece = string_of_range(e, 0, e.len());
    assert(piece@ =~= e@);
    eq_ignoring_case(piece.as_str(), text)
}

fn valid_hierarchy(scheme: &[char], e: &[char]) -> (holds: bool)
    ensures
        holds == is_hierarchy(scheme@, e@),
{
    if e.len() >= 2 && e[0] == '/' && e[1] == '/' {
        let rest = slice_of(e, 2, e.len());
        match find_char(rest, '/', 0) {
            Some(at) => {
                if !valid_encoded_component(slice_of(rest, at + 1, rest.len()), UriPart::Path) {
                    return false;
                }
                if at == 0 {
                    slice_eq_ignoring_case(scheme, "file")
                } else {
                    valid_uri_authority(slice_of(rest, 0, at))
                }
            },
            None => rest.len() > 0 && valid_uri_authority(rest),
        }
    } else {
        valid_encoded_component(e, UriPart::Path)
    }
}

fn valid_hierarchy_and_query(scheme: &[char], e: &[char]) -> (holds: bool)
    ensures
        holds == is_hierarchy_and_query(scheme@, e@),
{
    match find_char(e, '?', 0) {
        Some(at) => valid_encoded_component(slice_of(e, at + 1, e.len()), UriPart::Query)
            && valid_hierarchy(scheme, slice_of(e, 0, at)),
        None => valid_hierarchy(scheme, e),
    }
}

/// `text` is a URI.
pub fn valid_uri(text: &str) -> (holds: bool)
    ensures
        holds == is_uri(text@),
{
    let chars = chars_of(text);
    let e = chars.as_slice();
    if has_invalid_uri_char(e) {
        return false;
    }
    match find_char(e, ':', 0) {
        None => false,
        Some(colon) => {
            let scheme = slice_of(e, 0, colon);
            let rest = slice_of(e, colon + 1, e.len());
            if !valid_scheme(scheme) {
                return false;
            }
            match find_char(rest, '#', 0) {
                Some(at) => valid_encoded_component(
                    slice_of(rest, at + 1, rest.len()),
                    UriPart::Query,
                ) && valid_hierarchy_and_query(scheme, slice_of(rest, 0, at)),
                None => valid_hierarchy_and_query(scheme, rest),
            }
        },
    }
}

fn http_scheme(e: &[char]) -> (holds: bool)
    ensures
        holds == is_http_scheme(e@),
{
    slice_eq_ignoring_case(e, "http") || slice_eq_ignoring_case(e, "https")
}

fn skip_authority(e: &[char], from: usize) -> (end: usize)
    requires
        from <= e@.len(),
    ensures
        end == authority_end(e@, from as int),
        from <= end <= e@.len(),
{
    let mut i: usize = from;
    while i < e.len() && e[i] != '/' && e[i] != '?' && e[i] != '#'
        invariant
            from <= i <= e@.len(),
            authority_end(e@, from as int) == authority_end(e@, i as int),
        decreases e@.len() - i,
    {
        i += 1;
    }
    i
}

fn find_scheme_mark(e: &[char]) -> (found: Option<usize>)
    ensures
        e@.len() <= usize::MAX,
        match found {
            Some(at) => first_part(e@, seq![':', '/', '/'], 0) == Some(at as int) && at + 3
                <= e@.len(),
            None => first_part(e@, seq![':', '/', '/'], 0) is None,
        },
{
    let mark: Vec<char> = vec![':', '/', '/'];
    assert(mark@ =~= seq![':', '/', '/']);
    find_part(e, mark.as_slice())
}

/// `text` is an HTTP or HTTPS URL.
pub fn valid_http_endpoint_uri(text: &str) -> (holds: bool)
    ensures
        holds == is_http_url(text@),
{
    let chars = chars_of(text);
    let e = chars.as_slice();
    if has_invalid_uri_char(e) {
        return false;
    }
    match find_scheme_mark(e) {
        None => false,
        Some(at) => {
            if !http_scheme(slice_of(e, 0, at)) {
                return false;
            }
            let end = skip_authority(e, at + 3);
            end > at + 3 && valid_uri_authority(slice_of(e, at + 3, end))
        },
    }
}

fn begins_with_ignoring_case(long: &str, short: &[char]) -> (holds: bool)
    ensures
        holds == begins_ignoring_case(long@, short@),
{
    let chars = chars_of(long);
    if short.len() > chars.len() {
        return false;
    }
    let head = string_of_range(chars.as_slice(), 0, short.len());
    assert(head@ =~= long@.take(short@.len() as int));
    let piece = string_of_range(short, 0, short.len());
    assert(piece@ =~= short@);
    eq_ignoring_case(head.as_str(), piece.as_str())
}

fn valid_dynamic_prefix(e: &[char]) -> (holds: bool)
    ensures
        holds == may_begin_http_url(e@),
{
    match find_scheme_mark(e) {
        None => begins_with_ignoring_case("http://", e) || begins_with_ignoring_case(
            "https://",
            e,
        ),
        Some(at) => {
            if !http_scheme(slice_of(e, 0, at)) {
                return false;
            }
            let end = skip_authority(e, at + 3);
            let authority = slice_of(e, at + 3, end);
            if end < e.len() {
                valid_uri_authority(authority)
            } else {
                valid_authority_beginning(authority)
            }
        },
    }
}

/// The literal parts of a template may belong to an HTTP URL.
pub fn valid_dynamic_http_endpoint_uri(template: &WdlStringTemplate) -> (holds: bool)
    ensures
        holds == may_be_http_url(template@),
{
    let segments = template.literal_segments();
    let mut i: usize = 0;
    while i < segments.len()
        invariant
            i <= segments@.len(),
            texts(segments@) == template@,
            forall|j: int| 0 <= j < i ==> !has_invalid_char(#[trigger] template@[j]),
        decreases segments@.len() - i,
    {
        let chars = chars_of(segments[i].as_str());
        assert(template@[i as int] == chars@);
        if has_invalid_uri_char(chars.as_slice()) {
            return false;
        }
        i += 1;
    }
    let prefix = chars_of(template.static_prefix());
    valid_dynamic_prefix(prefix.as_slice())
}

proof fn lemma_total_bytes_grows(segments: Seq<Seq<char>>, i: int)
    requires
        0 <= i <= segments.len(),
    ensures
        total_bytes(segments.take(i)) <= total_bytes(segments),
    decreases segments.len() - i,
{
    if i < segments.len() {
        lemma_total_bytes_grows(segments, i + 1);
        assert(segments.take(i + 1).drop_last() =~= segments.take(i));
    } else {
        assert(segments.take(i) =~= segments);
    }
}

/// The literal parts of a template take more than `limit` bytes.
fn minimum_len_exceeds(template: &WdlStringTemplate, limit: usize) -> (holds: bool)
    ensures
        holds == (total_bytes(template@) > limit),
{
    let segments = template.literal_segments();
    let mut left: usize = limit;
    let mut i: usize = 0;
    while i < segments.len()
        invariant
            i <= segments@.len(),
            texts(segments@) == template@,
            left <= limit,
            total_bytes(template@.take(i as int)) == limit - left,
        decreases segments@.len() - i,
    {
        let length: usize = segments[i].as_str().as_bytes().len();
        proof {
            assert(template@[i as int] == segments@[i as int]@);
            assert(template@.take(i + 1).drop_last() =~= template@.take(i as int));
            lemma_total_bytes_grows(template@, i + 1);
        }
        if length > left {
            return true;
        }
        left -= length;
        i += 1;
    }
    assert(template@.take(i as int) =~= template@);
    false
}

/// What is wrong with the value of an HTTP endpoint field.
pub open spec fn endpoint_value_findings(
    value: &Node,
    text: Seq<char>,
    base: Seq<char>,
    key: Seq<char>,
    label: Seq<char>,
    file: &Document,
) -> Seq<Finding> {
    let (valid, short) = match classified(text) {
        Classified::Literal(literal) => (is_http_url(literal), encode_utf8(literal).len() <= 2048),
        Classified::Template(segments) => (
            may_be_http_url(segments),
            total_bytes(segments) <= 2048,
        ),
        _ => (true, true),
    };
    if !valid {
        wrong_value(file, base, key, value.span, label + " must be an HTTP or HTTPS URL"@)
    } else if !short {
        wrong_value(file, base, key, value.span, label + " must be at most 2048 bytes"@)
    } else {
        Seq::empty()
    }
}

/// What is wrong with an HTTP endpoint field.
pub open spec fn endpoint_findings(
    object: &Node,
    base: Seq<char>,
    key: Seq<char>,
    label: Seq<char>,
    file: &Document,
) -> Seq<Finding> {
    match checked(file, object, key) {
        Some(value) => match text_of(&value) {
            Some(text) => endpoint_value_findings(&value, text, base, key, label, file),
            None => Seq::empty(),
        },
        None => Seq::empty(),
    }
}

/// What is wrong with a URI field.
pub open spec fn uri_findings(
    object: &Node,
    base: Seq<char>,
    key: Seq<char>,
    label: Seq<char>,
    file: &Document,
) -> Seq<Finding> {
    match checked(file, object, key) {
        Some(value) => match text_of(&value) {
            Some(text) => if is_dynamic(text) || is_uri(text) {
                Seq::empty()
            } else {
                wrong_value(file, base, key, value.span, label + " must be a URI"@)
            },
            None => Seq::empty(),
        },
        None => Seq::empty(),
    }
}

/// Validate an HTTP(S) endpoint URI, at most 2048 bytes long.
pub fn validate_http_endpoint_uri(
    object: &Node,
    object_pointer: &str,
    key: &str,
    label: &str,
    file: &Document,
    diagnostics: &mut Vec<Diagnostic>,
)
    ensures
        findings(final(diagnostics)@) == findings(old(diagnostics)@) + endpoint_findings(
            object,
            object_pointer@,
            key@,
            label@,
            file,
        ),
{
    if let Some(value) = get_checked(file, object, key) {
        if let Some(text) = as_string(value) {
            let class = WdlStringValue::classify(text);
            let (valid, short) = match &class {
                WdlStringValue::Literal(literal) => (
                    valid_http_endpoint_uri(literal.as_str()),
                    literal.as_str().as_bytes().len() <= 2048,
                ),
                WdlStringValue::Template(template) => (
                    valid_dynamic_http_endpoint_uri(template),
                    !minimum_len_exceeds(template, 2048),
                ),
                _ => (true, true),
            };
            if !valid {
                let message = text2(label, " must be an HTTP or HTTPS URL");
                report_value(file, object_pointer, key, value.span, message.as_str(), diagnostics);
            } else if !short {
                let message = text2(label, " must be at most 2048 bytes");
                report_value(file, object_pointer, key, value.span, message.as_str(), diagnostics);
            }
        }
    }
}

/// Validate a generic URI field.
pub fn validate_uri(
    object: &Node,
    object_pointer: &str,
    key: &str,
    label: &str,
    file: &Document,
    diagnostics: &mut Vec<Diagnostic>,
)
    ensures
        findings(final(diagnostics)@) == findings(old(diagnostics)@) + uri_findings(
            object,
            object_pointer@,
            key@,
            label@,
            file,
        ),
{
    if let Some(value) = get_checked(file, object, key) {
        if let Some(text) = as_string(value) {
            if !wdl_string_has_dynamic_value(text) && !valid_uri(text) {
                let message = text2(label, " must be a URI");
                report_value(file, object_pointer, key, value.span, message.as_str(), diagnostics);
            }
        }
    }
}

} // verus!
