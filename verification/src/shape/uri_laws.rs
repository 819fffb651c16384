//! What hosts, addresses and URIs are told by.

use vstd::prelude::*;

use crate::shape::http_laws::{is_host, is_word};
use crate::shape::http_uri::{
    first_of, first_part, group_count, has_invalid_char, is_authority, is_component,
    is_component_from, is_hex_group, is_hierarchy, is_host_port, is_invalid_char, is_ipv6,
    is_octet, is_part_char, is_scheme_char, is_uri, last_of, side_count, UriPart,
};
use crate::shape::root_laws::is_number_text;
use crate::shape::template_laws::{lemma_first_of, lemma_first_part, lemma_last_of};
use crate::text::{digits_value, occurs_at};

verus! {

/// A character that may stand in every part of a URI.
pub open spec fn is_common_char(c: char) -> bool {
    ||| 'a' <= c <= 'z'
    ||| 'A' <= c <= 'Z'
    ||| '0' <= c <= '9'
    ||| c == '-'
    ||| c == '.'
    ||| c == '_'
    ||| c == '~'
    ||| c == '!'
    ||| c == '$'
    ||| c == '&'
    ||| c == '\''
    ||| c == '('
    ||| c == ')'
    ||| c == '*'
    ||| c == '+'
    ||| c == ','
    ||| c == ';'
    ||| c == '='
}

/// A hexadecimal digit.
pub open spec fn is_hexadecimal(c: char) -> bool {
    ('0' <= c <= '9') || ('a' <= c <= 'f') || ('A' <= c <= 'F')
}

/// The characters that each part of a URI takes as they are.
pub proof fn law_parts_take_their_characters(c: char)
    ensures
        is_component(seq![c], UriPart::RegName) == is_common_char(c),
        is_component(seq![c], UriPart::UserInfo) == (is_common_char(c) || c == ':'),
        is_component(seq![c], UriPart::Path) == (is_common_char(c) || c == ':' || c == '@' || c
            == '/'),
        is_component(seq![c], UriPart::Query) == (is_common_char(c) || c == ':' || c == '@' || c
            == '/' || c == '?'),
{
    let text = seq![c];
    assert(is_component_from(text, UriPart::RegName, 1));
    assert(is_component_from(text, UriPart::UserInfo, 1));
    assert(is_component_from(text, UriPart::Path, 1));
    assert(is_component_from(text, UriPart::Query, 1));
}

proof fn lemma_component(e: Seq<char>, part: UriPart, i: int, end: int)
    requires
        0 <= i <= end <= e.len(),
        forall|k: int| i <= k < end ==> is_part_char(part, #[trigger] e[k]),
    ensures
        is_component_from(e, part, i) == is_component_from(e, part, end),
    decreases end - i,
{
    if i < end {
        lemma_component(e, part, i + 1, end);
    }
}

proof fn lemma_shifted_component(e: Seq<char>, rest: Seq<char>, part: UriPart, by: int, i: int)
    requires
        0 <= by <= e.len(),
        rest == e.skip(by),
        0 <= i <= rest.len(),
    ensures
        is_component_from(e, part, by + i) == is_component_from(rest, part, i),
    decreases rest.len() - i,
{
    if i < rest.len() {
        assert(e[by + i] == rest[i]);
        if is_part_char(part, rest[i]) {
            lemma_shifted_component(e, rest, part, by, i + 1);
        } else if i + 2 < rest.len() {
            assert(e[by + i + 1] == rest[i + 1] && e[by + i + 2] == rest[i + 2]);
            lemma_shifted_component(e, rest, part, by, i + 3);
        }
    }
}

/// A byte is encoded by a percent sign and two hexadecimal digits.
pub proof fn law_bytes_are_encoded_by_two_digits(
    front: Seq<char>,
    high: char,
    low: char,
    back: Seq<char>,
    part: UriPart,
)
    requires
        forall|i: int| 0 <= i < front.len() ==> is_common_char(#[trigger] front[i]),
    ensures
        is_component(front + seq!['%', high, low] + back, part) == (is_hexadecimal(high)
            && is_hexadecimal(low) && is_component(back, part)),
{
    let text = front + seq!['%', high, low] + back;
    let n = front.len() as int;
    assert forall|k: int| 0 <= k < n implies is_part_char(part, #[trigger] text[k]) by {
        assert(text[k] == front[k]);
    }
    lemma_component(text, part, 0, n);
    assert(text[n] == '%' && text[n + 1] == high && text[n + 2] == low);
    assert(text.skip(n + 3) =~= back);
    lemma_shifted_component(text, back, part, n + 3, 0);
}

/// A number without a zero in front is a part of an address exactly where it is
/// at most 255.
pub proof fn law_octets_are_numbers_up_to_255(text: Seq<char>)
    requires
        is_number_text(text),
        text.len() > 1 ==> text[0] != '0',
    ensures
        is_octet(text) == (digits_value(text) <= 255),
{
    let n = text.len() as int;
    lemma_digits_bound(text);
    if n <= 3 {
        let a = text.drop_last();
        assert(digits_value(text) == digits_value(a) * 10 + (text.last() as int - '0' as int));
        if n == 1 {
            assert(digits_value(a) == 0);
        } else {
            let b = a.drop_last();
            assert(digits_value(a) == digits_value(b) * 10 + (a.last() as int - '0' as int));
            assert(a.last() == text[n - 2]);
            if n == 2 {
                assert(digits_value(b) == 0);
            } else {
                let c = b.drop_last();
                assert(digits_value(b) == digits_value(c) * 10 + (b.last() as int - '0' as int));
                assert(b.last() == text[0]);
                assert(digits_value(c) == 0);
                assert('0' <= text[0] <= '9' && '0' <= text[1] <= '9' && '0' <= text[2] <= '9');
            }
        }
        assert('0' <= text[n - 1] <= '9' && '0' <= text[0] <= '9');
    }
}

proof fn lemma_digits_bound(text: Seq<char>)
    requires
        is_number_text(text),
        text.len() > 1 ==> text[0] != '0',
    ensures
        text.len() >= 2 ==> digits_value(text) >= 10,
        text.len() >= 3 ==> digits_value(text) >= 100,
        text.len() >= 4 ==> digits_value(text) >= 1000,
    decreases text.len(),
{
    if text.len() >= 2 {
        let front = text.drop_last();
        assert forall|i: int| 0 <= i < front.len() implies '0' <= #[trigger] front[i] <= '9' by {
            assert(front[i] == text[i]);
        }
        assert(front[0] == text[0]);
        lemma_digits_bound(front);
        assert('0' <= text.last() <= '9');
        if text.len() == 2 {
            assert(front.drop_last() =~= Seq::<char>::empty());
            assert(digits_value(front.drop_last()) == 0);
            assert(front.last() == text[0]);
            assert('0' <= text[0] <= '9');
            assert(text[0] as int > '0' as int);
        }
    }
}

/// A host may have a port, and a port is digits.
pub proof fn law_ports_are_digits(host: Seq<char>, port: Seq<char>)
    requires
        is_host(host),
        forall|i: int| 0 <= i < port.len() ==> #[trigger] port[i] != ':',
        port.len() > 0 ==> port[0] != '[',
    ensures
        is_host_port(host),
        is_host_port(host + seq![':'] + port) == is_number_text(port),
        !is_host_port(seq![':'] + port),
{
    let text = host + seq![':'] + port;
    let n = host.len() as int;
    lemma_last_of(host, ':', n);
    assert(host[0] != '[');
    assert forall|k: int| 0 <= k < n implies is_part_char(UriPart::RegName, #[trigger] host[k]) by {}
    lemma_component(host, UriPart::RegName, 0, n);
    assert(is_component_from(host, UriPart::RegName, n));
    lemma_last_of(text, ':', text.len() as int);
    assert(text[n] == ':');
    assert(text[0] == host[0]);
    let at = last_of(text, ':', text.len() as int)->Some_0;
    assert(at == n) by {
        if at > n {
            assert(text[at] == port[at - n - 1]);
        }
    }
    assert(text.take(n) =~= host);
    assert(text.skip(n + 1) =~= port);
    if is_number_text(port) {
        assert forall|i: int| 0 <= i < port.len() implies crate::text::is_digit(
            #[trigger] port[i],
        ) by {}
    }
    let bare = seq![':'] + port;
    assert(bare[0] == ':');
    lemma_last_of(bare, ':', bare.len() as int);
    let first = last_of(bare, ':', bare.len() as int)->Some_0;
    assert(first == 0) by {
        if first > 0 {
            assert(bare[first] == port[first - 1]);
        }
    }
}

/// A user may stand in front of a host.
pub proof fn law_users_stand_in_front_of_hosts(user: Seq<char>, host: Seq<char>)
    requires
        is_word(user),
        is_host(host),
    ensures
        is_authority(user + seq!['@'] + host),
        !is_authority(user + seq!['@']),
        is_authority(host),
{
    let text = user + seq!['@'] + host;
    let n = user.len() as int;
    law_ports_are_digits(host, seq![]);
    lemma_last_of(text, '@', text.len() as int);
    assert(text[n] == '@');
    let at = last_of(text, '@', text.len() as int)->Some_0;
    assert(at == n) by {
        if at > n {
            assert(text[at] == host[at - n - 1]);
        }
    }
    assert(text.take(n) =~= user);
    assert(text.skip(n + 1) =~= host);
    assert forall|k: int| 0 <= k < n implies is_part_char(UriPart::UserInfo, #[trigger] user[k]) by {}
    lemma_component(user, UriPart::UserInfo, 0, n);
    assert(is_component_from(user, UriPart::UserInfo, n));
    let bare = user + seq!['@'];
    lemma_last_of(bare, '@', bare.len() as int);
    assert(bare[n] == '@');
    assert(bare.skip(n + 1) =~= Seq::<char>::empty());
    let nothing = Seq::<char>::empty();
    lemma_last_of(nothing, ':', 0);
    assert(!is_host_port(nothing));
    assert(last_of(bare, '@', bare.len() as int) == Some(n));
    lemma_last_of(host, '@', host.len() as int);
}

/// Groups with colons between them.
pub open spec fn with_colons(groups: Seq<Seq<char>>) -> Seq<char>
    decreases groups.len(),
{
    if groups.len() == 0 {
        Seq::empty()
    } else if groups.len() == 1 {
        groups[0]
    } else {
        groups[0] + seq![':'] + with_colons(groups.skip(1))
    }
}

/// One to four hexadecimal digits each.
pub open spec fn are_groups(groups: Seq<Seq<char>>) -> bool {
    forall|i: int|
        0 <= i < groups.len() ==> 1 <= (#[trigger] groups[i]).len() <= 4 && forall|k: int|
            0 <= k < groups[i].len() ==> is_hexadecimal(#[trigger] groups[i][k])
}

proof fn lemma_group(group: Seq<char>)
    requires
        1 <= group.len() <= 4,
        forall|k: int| 0 <= k < group.len() ==> is_hexadecimal(#[trigger] group[k]),
    ensures
        is_hex_group(group),
        forall|k: int| 0 <= k < group.len() ==> #[trigger] group[k] != ':',
{
}

proof fn lemma_groups(groups: Seq<Seq<char>>, dotted: bool)
    requires
        groups.len() > 0,
        are_groups(groups),
    ensures
        group_count(with_colons(groups), dotted) == Some(groups.len()),
        with_colons(groups).len() > 0,
        with_colons(groups)[0] != ':',
        forall|k: int|
            0 <= k < with_colons(groups).len() - 1 ==> !(#[trigger] with_colons(groups)[k] == ':'
                && with_colons(groups)[k + 1] == ':'),
        with_colons(groups).last() != ':',
    decreases groups.len(),
{
    let text = with_colons(groups);
    let first = groups[0];
    lemma_group(first);
    lemma_first_of(text, ':', 0);
    if groups.len() == 1 {
        assert(first_of(text, ':', 0) is None);
    } else {
        let rest = groups.skip(1);
        assert forall|i: int| 0 <= i < rest.len() implies 1 <= (#[trigger] rest[i]).len() <= 4
            && forall|k: int| 0 <= k < rest[i].len() ==> is_hexadecimal(#[trigger] rest[i][k]) by {
            assert(rest[i] == groups[i + 1]);
        }
        lemma_groups(rest, dotted);
        let n = first.len() as int;
        assert(text[n] == ':');
        let at = first_of(text, ':', 0)->Some_0;
        assert(at == n) by {
            if at < n {
                assert(text[at] == first[at]);
            }
        }
        assert(text.take(n) =~= first);
        assert(text.skip(n + 1) =~= with_colons(rest));
        assert(text[0] == first[0]);
        assert forall|k: int| 0 <= k < text.len() - 1 implies !(#[trigger] text[k] == ':' && text[k
            + 1] == ':') by {
            if k < n {
                assert(text[k] == first[k]);
            } else if k == n {
                assert(text[k + 1] == with_colons(rest)[0]);
            } else {
                assert(text[k] == with_colons(rest)[k - n - 1]);
                assert(text[k + 1] == with_colons(rest)[k - n]);
            }
        }
        assert(text.last() == with_colons(rest).last());
    }
}

proof fn lemma_side(groups: Seq<Seq<char>>, dotted: bool)
    requires
        are_groups(groups),
    ensures
        side_count(with_colons(groups), dotted) == Some(groups.len()),
        forall|k: int|
            0 <= k < with_colons(groups).len() - 1 ==> !(#[trigger] with_colons(groups)[k] == ':'
                && with_colons(groups)[k + 1] == ':'),
        with_colons(groups).len() > 0 ==> with_colons(groups).last() != ':',
{
    if groups.len() > 0 {
        lemma_groups(groups, dotted);
    }
}

/// An address is eight groups, or fewer around one pair of colons.
pub proof fn law_addresses_have_eight_groups(left: Seq<Seq<char>>, right: Seq<Seq<char>>)
    requires
        are_groups(left),
        are_groups(right),
    ensures
        left.len() > 0 ==> is_ipv6(with_colons(left)) == (left.len() == 8),
        is_ipv6(with_colons(left) + seq![':', ':'] + with_colons(right)) == (left.len()
            + right.len() <= 7),
{
    let pair = seq![':', ':'];
    if left.len() > 0 {
        let text = with_colons(left);
        lemma_groups(left, true);
        lemma_first_part(text, pair, 0);
        if let Some(at) = first_part(text, pair, 0) {
            assert(text.subrange(at, at + 2)[0] == ':' && text.subrange(at, at + 2)[1] == ':');
            assert(text[at] == ':' && text[at + 1] == ':');
        }
    }
    let front = with_colons(left);
    let back = with_colons(right);
    let text = front + pair + back;
    lemma_side(left, false);
    lemma_side(right, true);
    lemma_first_part(text, pair, 0);
    let n = front.len() as int;
    assert(text.subrange(n, n + 2) =~= pair);
    assert(occurs_at(text, pair, n));
    let at = first_part(text, pair, 0)->Some_0;
    assert(at == n) by {
        if at < n {
            assert(text.subrange(at, at + 2)[0] == ':' && text.subrange(at, at + 2)[1] == ':');
            assert(text[at] == front[at]);
            if at + 1 < n {
                assert(text[at + 1] == front[at + 1]);
            } else {
                assert(front.last() == front[at]);
            }
        }
    }
    assert(text.take(n) =~= front);
    assert(text.skip(n + 2) =~= back);
}

/// A URI is a scheme, which begins with a letter, and a path.
pub proof fn law_uris_begin_with_a_scheme(scheme: Seq<char>, path: Seq<char>)
    requires
        is_word(scheme),
        is_word(path),
    ensures
        is_uri(scheme + seq![':'] + path) == (scheme.len() > 0 && !('0' <= scheme[0] <= '9')),
        !is_uri(path),
{
    let text = scheme + seq![':'] + path;
    let n = scheme.len() as int;
    assert(text[n] == ':');
    lemma_first_of(text, ':', 0);
    let at = first_of(text, ':', 0)->Some_0;
    assert(at == n) by {
        if at < n {
            assert(text[at] == scheme[at]);
        }
    }
    assert(text.take(n) =~= scheme);
    assert(text.skip(n + 1) =~= path);
    lemma_first_of(path, '#', 0);
    lemma_first_of(path, '?', 0);
    lemma_first_of(path, ':', 0);
    assert forall|k: int| 0 <= k < path.len() implies is_part_char(UriPart::Path, #[trigger] path[k]) by {}
    lemma_component(path, UriPart::Path, 0, path.len() as int);
    assert(is_component_from(path, UriPart::Path, path.len() as int));
    assert(is_hierarchy(scheme, path));
    assert(!has_invalid_char(text)) by {
        if has_invalid_char(text) {
            let i = choose|i: int| 0 <= i < text.len() && is_invalid_char(#[trigger] text[i]);
            if i < n {
                assert(text[i] == scheme[i]);
            } else if i > n {
                assert(text[i] == path[i - n - 1]);
            }
        }
    }
    assert(forall|i: int| 1 <= i < scheme.len() ==> is_scheme_char(#[trigger] scheme[i]));
}

} // verus!
