//! What holds of texts with interpolations: whatever the interpolations turn
//! out to give, a text that would be accepted when written out is accepted.

use vstd::prelude::*;
use vstd::utf8::encode_utf8;

use crate::json::{Document, Node};
use crate::shape::dynamic_wdl::{
    ends_on_unit, may_be_duration, may_be_integer, may_be_positive_integer,
};
use crate::shape::http_uri::{
    authority_end, begins_ignoring_case, endpoint_value_findings, first_of, first_part,
    has_invalid_char, is_authority, is_component_from, is_host_port, is_http_url, is_invalid_char,
    is_part_char, last_of, may_begin_authority, may_begin_component_from, may_begin_host_port,
    may_begin_http_url, total_bytes, UriPart,
};
use crate::shape::time::{amount_end, digits_end, is_duration, is_duration_from};
use crate::text::{folded, is_digit, occurs_at, same_ignoring_case, spelled_i64, spelled_u64};
use crate::wdl::value::{
    classified, in_class, may_have_length, total_chars, CharClass, Classified,
};

verus! {

/// The text that `segments` give with `fills` between them.
pub open spec fn completed(segments: Seq<Seq<char>>, fills: Seq<Seq<char>>) -> Seq<char>
    decreases segments.len(),
{
    if segments.len() == 0 {
        Seq::empty()
    } else if segments.len() == 1 || fills.len() == 0 {
        segments[0]
    } else {
        completed(segments.drop_last(), fills.drop_last()) + fills.last() + segments.last()
    }
}

/// `text` has interpolations, and `fills` are what they give, one each.
pub open spec fn gives(text: Seq<char>, fills: Seq<Seq<char>>) -> bool {
    classified(text) matches Classified::Template(segments) && fills.len() + 1 == segments.len()
}

/// The value of a text whose interpolations give `fills`.
pub open spec fn value_of(text: Seq<char>, fills: Seq<Seq<char>>) -> Seq<char> {
    completed(classified(text)->Template_0, fills)
}

/// What holds of all characters of the completed text holds of those of the
/// segments.
pub proof fn lemma_segments_are_part(
    segments: Seq<Seq<char>>,
    fills: Seq<Seq<char>>,
    allowed: spec_fn(char) -> bool,
)
    requires
        fills.len() + 1 == segments.len(),
        forall|k: int|
            0 <= k < completed(segments, fills).len() ==> allowed(
                #[trigger] completed(segments, fills)[k],
            ),
    ensures
        forall|i: int, j: int|
            0 <= i < segments.len() && 0 <= j < segments[i].len() ==> allowed(
                #[trigger] segments[i][j],
            ),
    decreases segments.len(),
{
    let whole = completed(segments, fills);
    if segments.len() > 1 {
        let front = completed(segments.drop_last(), fills.drop_last());
        assert(whole =~= front + fills.last() + segments.last());
        assert forall|k: int| 0 <= k < front.len() implies allowed(#[trigger] front[k]) by {
            assert(whole[k] == front[k]);
        }
        lemma_segments_are_part(segments.drop_last(), fills.drop_last(), allowed);
        assert forall|i: int, j: int|
            0 <= i < segments.len() && 0 <= j < segments[i].len() implies allowed(
            #[trigger] segments[i][j],
        ) by {
            if i < segments.len() - 1 {
                assert(segments.drop_last()[i][j] == segments[i][j]);
            } else {
                let k = front.len() + fills.last().len() + j;
                assert(whole[k] == segments[i][j]);
            }
        }
    } else {
        assert forall|i: int, j: int|
            0 <= i < segments.len() && 0 <= j < segments[i].len() implies allowed(
            #[trigger] segments[i][j],
        ) by {
            assert(whole[j] == segments[i][j]);
        }
    }
}

/// The completed text begins with the first segment and ends with the last.
pub proof fn lemma_segments_at_the_ends(segments: Seq<Seq<char>>, fills: Seq<Seq<char>>)
    requires
        fills.len() + 1 == segments.len(),
    ensures
        segments.first().is_prefix_of(completed(segments, fills)),
        segments.last().is_suffix_of(completed(segments, fills)),
        total_chars(segments) <= completed(segments, fills).len(),
    decreases segments.len(),
{
    reveal_with_fuel(total_chars, 2);
    let whole = completed(segments, fills);
    if segments.len() > 1 {
        let front = completed(segments.drop_last(), fills.drop_last());
        lemma_segments_at_the_ends(segments.drop_last(), fills.drop_last());
        assert(whole =~= front + fills.last() + segments.last());
        assert(segments.drop_last().first() == segments.first());
        assert(whole.take(segments.first().len() as int) =~= front.take(
            segments.first().len() as int,
        ));
    }
}

/// A text whose value may be a positive integer passes as one.
pub proof fn law_positive_integers_pass(text: Seq<char>, fills: Seq<Seq<char>>)
    requires
        gives(text, fills),
        spelled_u64(value_of(text, fills)) is Some,
        spelled_u64(value_of(text, fills))->Some_0 > 0,
    ensures
        may_be_positive_integer(text),
{
    let value = value_of(text, fills);
    assert forall|k: int| 0 <= k < value.len() implies in_class(
        CharClass::Digits,
        #[trigger] value[k],
    ) by {
        if k > 0 {
            assert(value.skip(1)[k - 1] == value[k]);
        }
    }
    lemma_segments_are_part(
        classified(text)->Template_0,
        fills,
        |c: char| in_class(CharClass::Digits, c),
    );
}

/// A text whose value may be an integer passes as one.
pub proof fn law_integers_pass(text: Seq<char>, fills: Seq<Seq<char>>)
    requires
        gives(text, fills),
        spelled_i64(value_of(text, fills)) is Some,
    ensures
        may_be_integer(text),
{
    let value = value_of(text, fills);
    assert forall|k: int| 0 <= k < value.len() implies in_class(
        CharClass::SignedDigits,
        #[trigger] value[k],
    ) by {
        if k > 0 {
            assert(value.skip(1)[k - 1] == value[k]);
        }
    }
    lemma_segments_are_part(
        classified(text)->Template_0,
        fills,
        |c: char| in_class(CharClass::SignedDigits, c),
    );
}

/// A text may have as many characters as its value turns out to have.
pub proof fn law_lengths_pass(text: Seq<char>, fills: Seq<Seq<char>>)
    requires
        gives(text, fills),
    ensures
        may_have_length(classified(text), value_of(text, fills).len() as int),
{
    lemma_segments_at_the_ends(classified(text)->Template_0, fills);
}

proof fn lemma_digits_end(e: Seq<char>, i: int)
    requires
        0 <= i <= e.len(),
    ensures
        i <= digits_end(e, i) <= e.len(),
        forall|k: int| i <= k < digits_end(e, i) ==> is_digit(#[trigger] e[k]),
    decreases e.len() - i,
{
    if i < e.len() && is_digit(e[i]) {
        lemma_digits_end(e, i + 1);
    }
}

proof fn lemma_duration_parts(e: Seq<char>, i: int, in_time: bool, any: bool)
    requires
        0 <= i <= e.len(),
        is_duration_from(e, i, in_time, any),
    ensures
        forall|k: int| i <= k < e.len() ==> in_class(CharClass::DurationParts, #[trigger] e[k]),
        i < e.len() ==> e.last() == 'T' || ends_on_unit(e),
    decreases e.len() - i,
{
    if i < e.len() {
        if e[i] == 'T' {
            lemma_duration_parts(e, i + 1, true, any);
        } else {
            let whole = digits_end(e, i);
            lemma_digits_end(e, i);
            if whole < e.len() && (e[whole] == '.' || e[whole] == ',') {
                lemma_digits_end(e, whole + 1);
            }
            let end = amount_end(e, i)->Some_0;
            lemma_duration_parts(e, end + 1, in_time, true);
        }
    }
}

/// A text whose value may be a duration passes as one. A duration that breaks
/// off after its `T` is left out.
pub proof fn law_durations_pass(text: Seq<char>, fills: Seq<Seq<char>>)
    requires
        gives(text, fills),
        is_duration(value_of(text, fills)),
        value_of(text, fills).last() != 'T',
    ensures
        may_be_duration(text),
{
    let segments = classified(text)->Template_0;
    let value = value_of(text, fills);
    lemma_duration_parts(value, 1, false, false);
    assert forall|k: int| 0 <= k < value.len() implies in_class(
        CharClass::DurationParts,
        #[trigger] value[k],
    ) by {}
    lemma_segments_are_part(segments, fills, |c: char| in_class(CharClass::DurationParts, c));
    lemma_segments_at_the_ends(segments, fills);
    if segments.first().len() > 0 {
        assert(segments.first()[0] == value[0]);
    }
    if segments.last().len() > 0 {
        assert(segments.last().last() == value.last());
    }
}

pub proof fn lemma_last_of(e: Seq<char>, c: char, end: int)
    requires
        0 <= end <= e.len(),
    ensures
        match last_of(e, c, end) {
            Some(at) => 0 <= at < end && e[at] == c && forall|k: int|
                at < k < end ==> #[trigger] e[k] != c,
            None => forall|k: int| 0 <= k < end ==> #[trigger] e[k] != c,
        },
    decreases end,
{
    if end > 0 && e[end - 1] != c {
        lemma_last_of(e, c, end - 1);
    }
}

pub proof fn lemma_first_of(e: Seq<char>, c: char, from: int)
    requires
        0 <= from,
    ensures
        match first_of(e, c, from) {
            Some(at) => from <= at < e.len() && e[at] == c && forall|k: int|
                from <= k < at ==> #[trigger] e[k] != c,
            None => forall|k: int| from <= k < e.len() ==> #[trigger] e[k] != c,
        },
    decreases e.len() - from,
{
    if from < e.len() && e[from] != c {
        lemma_first_of(e, c, from + 1);
    }
}

pub proof fn lemma_first_part(e: Seq<char>, part: Seq<char>, from: int)
    requires
        0 <= from,
    ensures
        match first_part(e, part, from) {
            Some(at) => from <= at < e.len() && occurs_at(e, part, at) && forall|k: int|
                from <= k < at ==> !#[trigger] occurs_at(e, part, k),
            None => forall|k: int| from <= k < e.len() ==> !#[trigger] occurs_at(e, part, k),
        },
    decreases e.len() - from,
{
    if from < e.len() && !occurs_at(e, part, from) {
        lemma_first_part(e, part, from + 1);
    }
}

proof fn lemma_component_begins(e: Seq<char>, rest: Seq<char>, part: UriPart, i: int)
    requires
        0 <= i,
        is_component_from(e + rest, part, i),
    ensures
        may_begin_component_from(e, part, i),
    decreases e.len() - i,
{
    let whole = e + rest;
    if i < e.len() {
        if is_part_char(part, e[i]) {
            lemma_component_begins(e, rest, part, i + 1);
        } else {
            if i + 3 < e.len() {
                lemma_component_begins(e, rest, part, i + 3);
            }
        }
    }
}

proof fn lemma_component_lacks(e: Seq<char>, part: UriPart, i: int, c: char)
    requires
        0 <= i,
        is_component_from(e, part, i),
        !is_part_char(part, c),
        c != '%',
    ensures
        forall|k: int| i <= k < e.len() ==> #[trigger] e[k] != c,
    decreases e.len() - i,
{
    if i < e.len() {
        if is_part_char(part, e[i]) {
            lemma_component_lacks(e, part, i + 1, c);
        } else {
            assert(is_part_char(part, e[i + 1]) && is_part_char(part, e[i + 2]));
            lemma_component_lacks(e, part, i + 3, c);
        }
    }
}

proof fn lemma_host_port_begins(e: Seq<char>, rest: Seq<char>)
    requires
        is_host_port(e + rest),
    ensures
        may_begin_host_port(e),
{
    let whole = e + rest;
    if e.len() == 0 {
        lemma_last_of(e, ':', 0);
    } else if e[0] == '[' {
        lemma_first_of(whole, ']', 1);
        lemma_first_of(e, ']', 1);
        let at = first_of(whole, ']', 1)->Some_0;
        if at < e.len() {
            assert(e[at] == ']');
            assert(first_of(e, ']', 1) is Some);
            let own = first_of(e, ']', 1)->Some_0;
            assert(whole[own] == ']');
            assert(own == at);
            assert(whole.subrange(1, at) =~= e.subrange(1, at));
            let tail = e.skip(at + 1);
            assert(whole.skip(at + 1) =~= tail + rest);
            if tail.len() > 0 {
                assert forall|k: int| 0 <= k < tail.skip(1).len() implies is_digit(
                    #[trigger] tail.skip(1)[k],
                ) by {
                    assert(whole.skip(at + 1).skip(1)[k] == tail.skip(1)[k]);
                }
            }
        } else {
            if first_of(e, ']', 1) is Some {
                let own = first_of(e, ']', 1)->Some_0;
                assert(whole[own] == ']');
            }
        }
    } else {
        lemma_last_of(whole, ':', whole.len() as int);
        lemma_last_of(e, ':', e.len() as int);
        match last_of(whole, ':', whole.len() as int) {
            Some(at) => {
                if at < e.len() {
                    assert(e[at] == ':');
                    let own = last_of(e, ':', e.len() as int)->Some_0;
                    assert(whole[own] == ':');
                    assert(own == at);
                    assert(whole.take(at) =~= e.take(at));
                    assert forall|k: int| 0 <= k < e.skip(at + 1).len() implies is_digit(
                        #[trigger] e.skip(at + 1)[k],
                    ) by {
                        assert(whole.skip(at + 1)[k] == e.skip(at + 1)[k]);
                    }
                } else {
                    let more = whole.take(at).skip(e.len() as int);
                    assert(whole.take(at) =~= e + more);
                    lemma_component_begins(e, more, UriPart::RegName, 0);
                    lemma_component_lacks(whole.take(at), UriPart::RegName, 0, ':');
                    if last_of(e, ':', e.len() as int) is Some {
                        let own = last_of(e, ':', e.len() as int)->Some_0;
                        assert(whole.take(at)[own] == ':');
                    }
                }
            },
            None => {
                lemma_component_begins(e, rest, UriPart::RegName, 0);
                if last_of(e, ':', e.len() as int) is Some {
                    let own = last_of(e, ':', e.len() as int)->Some_0;
                    assert(whole[own] == ':');
                }
            },
        }
    }
}

proof fn lemma_authority_begins(e: Seq<char>, rest: Seq<char>)
    requires
        is_authority(e + rest),
    ensures
        may_begin_authority(e),
{
    let whole = e + rest;
    lemma_last_of(whole, '@', whole.len() as int);
    lemma_last_of(e, '@', e.len() as int);
    match last_of(whole, '@', whole.len() as int) {
        Some(at) => {
            if at < e.len() {
                assert(e[at] == '@');
                let own = last_of(e, '@', e.len() as int)->Some_0;
                assert(whole[own] == '@');
                assert(own == at);
                assert(whole.take(at) =~= e.take(at));
                assert(whole.skip(at + 1) =~= e.skip(at + 1) + rest);
                lemma_host_port_begins(e.skip(at + 1), rest);
            } else {
                let more = whole.take(at).skip(e.len() as int);
                assert(whole.take(at) =~= e + more);
                lemma_component_begins(e, more, UriPart::UserInfo, 0);
                lemma_component_lacks(whole.take(at), UriPart::UserInfo, 0, '@');
                if last_of(e, '@', e.len() as int) is Some {
                    let own = last_of(e, '@', e.len() as int)->Some_0;
                    assert(whole.take(at)[own] == '@');
                }
            }
        },
        None => {
            if last_of(e, '@', e.len() as int) is Some {
                let own = last_of(e, '@', e.len() as int)->Some_0;
                assert(whole[own] == '@');
            }
            lemma_host_port_begins(e, rest);
        },
    }
}

proof fn lemma_authority_end_in_range(e: Seq<char>, i: int)
    requires
        0 <= i <= e.len(),
    ensures
        i <= authority_end(e, i) <= e.len(),
    decreases e.len() - i,
{
    if i < e.len() {
        lemma_authority_end_in_range(e, i + 1);
    }
}

proof fn lemma_authority_end(e: Seq<char>, rest: Seq<char>, i: int)
    requires
        0 <= i <= e.len(),
    ensures
        i <= authority_end(e, i) <= e.len(),
        authority_end(e, i) < e.len() ==> authority_end(e + rest, i) == authority_end(e, i),
        authority_end(e, i) <= authority_end(e + rest, i) <= e.len() + rest.len(),
    decreases e.len() - i,
{
    lemma_authority_end_in_range(e + rest, i);
    if i < e.len() && e[i] != '/' && e[i] != '?' && e[i] != '#' {
        lemma_authority_end(e, rest, i + 1);
    }
}

proof fn lemma_url_begins(prefix: Seq<char>, rest: Seq<char>)
    requires
        is_http_url(prefix + rest),
    ensures
        may_begin_http_url(prefix),
{
    let whole = prefix + rest;
    let mark = seq![':', '/', '/'];
    lemma_first_part(whole, mark, 0);
    lemma_first_part(prefix, mark, 0);
    let at = first_part(whole, mark, 0)->Some_0;
    if at + 3 <= prefix.len() {
        assert(prefix.subrange(at, at + 3) =~= whole.subrange(at, at + 3));
        assert(occurs_at(prefix, mark, at));
        let own = first_part(prefix, mark, 0)->Some_0;
        assert(prefix.subrange(own, own + 3) =~= whole.subrange(own, own + 3));
        assert(occurs_at(whole, mark, own));
        assert(own == at);
        assert(whole.take(at) =~= prefix.take(at));
        lemma_authority_end(prefix, rest, at + 3);
        let end = authority_end(prefix, at + 3);
        let last = authority_end(whole, at + 3);
        if end < prefix.len() {
            assert(whole.subrange(at + 3, end) =~= prefix.subrange(at + 3, end));
        } else {
            let authority = prefix.subrange(at + 3, end);
            let more = whole.subrange(end, last);
            assert(whole.subrange(at + 3, last) =~= authority + more);
            lemma_authority_begins(authority, more);
        }
    } else {
        if first_part(prefix, mark, 0) is Some {
            let own = first_part(prefix, mark, 0)->Some_0;
            assert(prefix.subrange(own, own + 3) =~= whole.subrange(own, own + 3));
            assert(occurs_at(whole, mark, own));
        }
        reveal_strlit("http");
        reveal_strlit("https");
        reveal_strlit("http://");
        reveal_strlit("https://");
        let head = whole.take(at + 3);
        assert(whole.subrange(at, at + 3) =~= mark);
        assert(head =~= whole.take(at) + mark);
        if same_ignoring_case(whole.take(at), "http"@) {
            lemma_head_begins(whole, prefix.len() as int, "http"@, "http://"@);
        } else {
            lemma_head_begins(whole, prefix.len() as int, "https"@, "https://"@);
        }
        assert(whole.take(prefix.len() as int) =~= prefix);
    }
}

proof fn lemma_head_begins(whole: Seq<char>, n: int, scheme: Seq<char>, lead: Seq<char>)
    requires
        lead =~= scheme + seq![':', '/', '/'],
        lead.len() <= whole.len(),
        same_ignoring_case(whole.take(scheme.len() as int), scheme),
        whole.subrange(scheme.len() as int, scheme.len() as int + 3) =~= seq![':', '/', '/'],
        0 <= n < lead.len(),
    ensures
        begins_ignoring_case(lead, whole.take(n)),
{
    let short = whole.take(n);
    assert forall|k: int| 0 <= k < n implies folded(#[trigger] lead.take(n)[k]) == folded(
        short[k],
    ) by {
        if k < scheme.len() {
            assert(whole.take(scheme.len() as int)[k] == whole[k]);
            assert(scheme[k] == lead[k]);
        } else {
            assert(whole.subrange(scheme.len() as int, scheme.len() as int + 3)[k - scheme.len()]
                == whole[k]);
        }
    }
}

proof fn lemma_encoding_adds(first: Seq<char>, second: Seq<char>)
    ensures
        encode_utf8(first + second) == encode_utf8(first) + encode_utf8(second),
    decreases first.len(),
{
    if first.len() == 0 {
        assert(first + second =~= second);
        assert(encode_utf8(first) + encode_utf8(second) =~= encode_utf8(second));
    } else {
        lemma_encoding_adds(first.drop_first(), second);
        assert((first + second).drop_first() =~= first.drop_first() + second);
        assert(encode_utf8(first + second) =~= encode_utf8(first) + encode_utf8(second));
    }
}

proof fn lemma_bytes_of_segments(segments: Seq<Seq<char>>, fills: Seq<Seq<char>>)
    requires
        fills.len() + 1 == segments.len(),
    ensures
        total_bytes(segments) <= encode_utf8(completed(segments, fills)).len(),
    decreases segments.len(),
{
    if segments.len() > 1 {
        let front = completed(segments.drop_last(), fills.drop_last());
        lemma_bytes_of_segments(segments.drop_last(), fills.drop_last());
        lemma_encoding_adds(front, fills.last());
        lemma_encoding_adds(front + fills.last(), segments.last());
    } else {
        assert(total_bytes(segments.drop_last()) == 0);
        assert(segments.last() == segments[0]);
    }
}

/// A text whose value may be an HTTP URL of a permitted length passes as one.
pub proof fn law_http_urls_pass(
    value: &Node,
    text: Seq<char>,
    fills: Seq<Seq<char>>,
    base: Seq<char>,
    key: Seq<char>,
    label: Seq<char>,
    file: &Document,
)
    requires
        gives(text, fills),
        is_http_url(value_of(text, fills)),
        encode_utf8(value_of(text, fills)).len() <= 2048,
    ensures
        endpoint_value_findings(value, text, base, key, label, file).len() == 0,
{
    let segments = classified(text)->Template_0;
    let whole = value_of(text, fills);
    assert forall|k: int| 0 <= k < whole.len() implies !is_invalid_char(#[trigger] whole[k]) by {}
    lemma_segments_are_part(segments, fills, |c: char| !is_invalid_char(c));
    lemma_segments_at_the_ends(segments, fills);
    lemma_bytes_of_segments(segments, fills);
    let prefix = segments.first();
    assert(whole =~= prefix + whole.skip(prefix.len() as int));
    lemma_url_begins(prefix, whole.skip(prefix.len() as int));
    assert forall|i: int| 0 <= i < segments.len() implies !has_invalid_char(
        #[trigger] segments[i],
    ) by {
        assert forall|j: int| 0 <= j < segments[i].len() implies !is_invalid_char(
            #[trigger] segments[i][j],
        ) by {}
    }
}

} // verus!
