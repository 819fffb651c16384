//! What an HTTP action is judged by: its method, its URL and its retry policy.

use vstd::prelude::*;
use vstd::utf8::{is_ascii_chars, is_ascii_chars_encode_utf8};

use crate::arm::ArmScope;
use crate::json::{field, joined, text_field, Document, Json, Node, Number};
use crate::shape::actions::connectors::http_action_inputs_findings;
use crate::shape::duration::{duration_seconds, Fraction};
use crate::shape::duration_laws::{
    is_run, law_components_are_durations, law_lengths_are_ordered_as_numbers,
    law_units_have_their_lengths,
};
use crate::shape::http::{
    bounds_of, endpoint_method_names, http_inputs_findings, retry_interval_findings,
    retry_policy_object_findings, retry_policy_type_names, retry_required_findings,
    retry_type_findings,
};
use crate::shape::http_uri::{
    authority_end, first_part, has_invalid_char, is_authority, is_component_from, is_http_url,
    is_invalid_char, last_of, UriPart,
};
use crate::shape::operations::authored_action_findings;
use crate::shape::plain_laws::{
    holds_only, is_plain, keeps_state, lemma_action_alone, lemma_action_by_type, lemma_plain,
};
use crate::shape::recurrence_laws::{is_unmarked, lemma_unmarked_is_literal};
use crate::shape::registry::ActionSpec;
use crate::shape::template_laws::{lemma_first_part, lemma_last_of};
use crate::shape::type_laws::lemma_action_types;
use crate::text::{digits_value, occurs_at, one_of, one_of_ignoring_case, same_ignoring_case};
use crate::workflow::Workflow;

verus! {

/// A host name: letters, digits, `.` and `-`.
pub open spec fn is_host(text: Seq<char>) -> bool {
    &&& text.len() > 0
    &&& forall|i: int|
        0 <= i < text.len() ==> {
            let c = #[trigger] text[i];
            ('a' <= c <= 'z') || ('A' <= c <= 'Z') || ('0' <= c <= '9') || c == '.' || c == '-'
        }
}

/// A word: letters and digits.
pub open spec fn is_word(text: Seq<char>) -> bool {
    forall|i: int|
        0 <= i < text.len() ==> {
            let c = #[trigger] text[i];
            ('a' <= c <= 'z') || ('A' <= c <= 'Z') || ('0' <= c <= '9')
        }
}

proof fn lemma_host_component(e: Seq<char>, i: int)
    requires
        0 <= i,
        is_host(e),
    ensures
        is_component_from(e, UriPart::RegName, i),
    decreases e.len() - i,
{
    if i < e.len() {
        lemma_host_component(e, i + 1);
    }
}

proof fn lemma_authority_end_at(e: Seq<char>, i: int, end: int)
    requires
        0 <= i <= end <= e.len(),
        forall|k: int| i <= k < end ==> #[trigger] e[k] != '/' && e[k] != '?' && e[k] != '#',
        end < e.len() ==> e[end] == '/' || e[end] == '?' || e[end] == '#',
    ensures
        authority_end(e, i) == end,
    decreases end - i,
{
    if i < end {
        lemma_authority_end_at(e, i + 1, end);
    }
}

/// A URL of a host is accepted exactly where its scheme is `http` or `https`,
/// in any case, and neither control characters nor spaces stand in it.
pub proof fn law_urls_are_told_by_their_scheme(
    scheme: Seq<char>,
    host: Seq<char>,
    rest: Seq<char>,
)
    requires
        is_word(scheme),
        is_host(host),
        rest.len() > 0 ==> rest[0] == '/' || rest[0] == '?' || rest[0] == '#',
    ensures
        is_http_url(scheme + seq![':', '/', '/'] + host + rest) == ((same_ignoring_case(
            scheme,
            "http"@,
        ) || same_ignoring_case(scheme, "https"@)) && forall|i: int|
            0 <= i < rest.len() ==> #[trigger] rest[i] > ' ' && rest[i] != '\x7f'),
{
    let text = scheme + seq![':', '/', '/'] + host + rest;
    let mark = seq![':', '/', '/'];
    let at = scheme.len() as int;
    let start = at + 3;
    let end = start + host.len();
    assert(text.subrange(at, at + 3) =~= mark);
    assert(occurs_at(text, mark, at));
    lemma_first_part(text, mark, 0);
    let first = first_part(text, mark, 0)->Some_0;
    assert(first <= at);
    if first < at {
        assert(text.subrange(first, first + 3)[0] == ':');
        assert(text[first] == scheme[first]);
    }
    assert(text.take(at) =~= scheme);
    assert forall|k: int| start <= k < end implies #[trigger] text[k] != '/' && text[k] != '?'
        && text[k] != '#' by {
        assert(text[k] == host[k - start]);
    }
    if end < text.len() {
        assert(text[end] == rest[0]);
    }
    lemma_authority_end_at(text, start, end);
    let authority = text.subrange(start, end);
    assert(authority =~= host);
    lemma_last_of(host, '@', host.len() as int);
    lemma_last_of(host, ':', host.len() as int);
    assert(last_of(host, '@', host.len() as int) is None);
    assert(last_of(host, ':', host.len() as int) is None);
    lemma_host_component(host, 0);
    assert(host[0] != '[');
    assert(is_authority(host));
    if has_invalid_char(text) {
        let i = choose|i: int| 0 <= i < text.len() && is_invalid_char(#[trigger] text[i]);
        if i < at {
            assert(text[i] == scheme[i]);
        } else if i < start {
        } else if i < end {
            assert(text[i] == host[i - start]);
        } else {
            assert(text[i] == rest[i - end]);
        }
    }
    assert forall|i: int| 0 <= i < rest.len() && !has_invalid_char(text) implies #[trigger] rest[i]
        > ' ' && rest[i] != '\x7f' by {
        assert(text[end + i] == rest[i]);
        assert(!is_invalid_char(text[end + i]));
    }
}

proof fn lemma_endpoint_method_names(name: Seq<char>)
    ensures
        one_of(name, endpoint_method_names()) == (name == "DELETE"@ || name == "GET"@ || name == "PATCH"@ || name == "POST"@ || name == "PUT"@),
{
    let list = endpoint_method_names();
    if one_of(name, list) {
        let k = choose|k: int| 0 <= k < list.len() && list[k] == name;
        assert(list[k] == name);
    }
    assert(list[0] == "DELETE"@);
    assert(list[1] == "GET"@);
    assert(list[2] == "PATCH"@);
    assert(list[3] == "POST"@);
    assert(list[4] == "PUT"@);
}

proof fn lemma_retry_policy_type_names(name: Seq<char>)
    ensures
        one_of_ignoring_case(name, retry_policy_type_names()) == (same_ignoring_case(name, "Default"@) || same_ignoring_case(name, "Exponential"@) || same_ignoring_case(name, "Fixed"@) || same_ignoring_case(name, "None"@)),
{
    let list = retry_policy_type_names();
    assert(list[0] == "Default"@);
    assert(list[1] == "Exponential"@);
    assert(list[2] == "Fixed"@);
    assert(list[3] == "None"@);
    if one_of_ignoring_case(name, list) {
        let k = choose|k: int| 0 <= k < list.len() && same_ignoring_case(name, #[trigger] list[k]);
        assert(same_ignoring_case(name, list[k]));
    }
}

/// HTTP inputs with these members have nothing else.
proof fn lemma_inputs_alone(node: &Node)
    requires
        holds_only(node, seq!["method"@, "uri"@, "retryPolicy"@]),
    ensures
        field(node, "headers"@) is None,
        field(node, "queries"@) is None,
        field(node, "cookie"@) is None,
        field(node, "operationOptions"@) is None,
        field(node, "authentication"@) is None,
{
    reveal_strlit("method");
    reveal_strlit("uri");
    reveal_strlit("retryPolicy");
    reveal_strlit("headers");
    reveal_strlit("queries");
    reveal_strlit("cookie");
    reveal_strlit("operationOptions");
    reveal_strlit("authentication");
    assert("method"@.len() == 6 && "method"@[0] == 'm');
    assert("uri"@.len() == 3 && "uri"@[0] == 'u');
    assert("retryPolicy"@.len() == 11 && "retryPolicy"@[0] == 'r');
    assert("headers"@.len() == 7 && "headers"@[0] == 'h');
    assert("queries"@.len() == 7 && "queries"@[0] == 'q');
    assert("cookie"@.len() == 6 && "cookie"@[0] == 'c');
    assert("operationOptions"@.len() == 16 && "operationOptions"@[0] == 'o');
    assert("authentication"@.len() == 14 && "authentication"@[0] == 'a');
    let keys = seq!["method"@, "uri"@, "retryPolicy"@];
    if field(node, "headers"@) is Some {
        assert(keys.contains("headers"@));
        let i = choose|i: int| 0 <= i < keys.len() && keys[i] == "headers"@;
        assert(keys[i] == "headers"@);
    }
    if field(node, "queries"@) is Some {
        assert(keys.contains("queries"@));
        let i = choose|i: int| 0 <= i < keys.len() && keys[i] == "queries"@;
        assert(keys[i] == "queries"@);
    }
    if field(node, "cookie"@) is Some {
        assert(keys.contains("cookie"@));
        let i = choose|i: int| 0 <= i < keys.len() && keys[i] == "cookie"@;
        assert(keys[i] == "cookie"@);
    }
    if field(node, "operationOptions"@) is Some {
        assert(keys.contains("operationOptions"@));
        let i = choose|i: int| 0 <= i < keys.len() && keys[i] == "operationOptions"@;
        assert(keys[i] == "operationOptions"@);
    }
    if field(node, "authentication"@) is Some {
        assert(keys.contains("authentication"@));
        let i = choose|i: int| 0 <= i < keys.len() && keys[i] == "authentication"@;
        assert(keys[i] == "authentication"@);
    }
}

/// The length in seconds of `PT`, digits and a unit.
pub open spec fn time_seconds(digits: Seq<char>, unit: char) -> nat {
    if unit == 'H' {
        3600 * digits_value(digits)
    } else if unit == 'M' {
        60 * digits_value(digits)
    } else {
        digits_value(digits)
    }
}

pub proof fn lemma_interval(
    policy: &Node,
    base: Seq<char>,
    key: Seq<char>,
    label: Seq<char>,
    digits: Seq<char>,
    unit: char,
    file: &Document,
    workflow: &Workflow,
    scope: &ArmScope,
)
    requires
        is_plain(file, scope),
        is_run(digits),
        unit == 'S' || unit == 'M' || unit == 'H',
        text_field(policy, key) == Some(seq!['P', 'T'] + digits + seq![unit]),
    ensures
        (retry_interval_findings(policy, base, key, label, bounds_of(workflow), file).len() == 0)
            == (if keeps_state(workflow) {
            5 <= time_seconds(digits, unit) <= 86400
        } else {
            1 <= time_seconds(digits, unit) <= 60
        }),
        duration_seconds(seq!['P', 'T'] + digits + seq![unit]) == Some(
            Fraction { amount: time_seconds(digits, unit), places: 0 },
        ),
        is_unmarked(seq!['P', 'T'] + digits + seq![unit]),
{
    let text = seq!['P', 'T'] + digits + seq![unit];
    lemma_plain(file, scope);
    assert forall|i: int| 0 <= i < text.len() implies #[trigger] text[i] != '@' by {
        if 2 <= i < text.len() - 1 {
            assert(text[i] == digits[i - 2]);
        }
    }
    lemma_unmarked_is_literal(text);
    law_components_are_durations(digits, unit);
    law_units_have_their_lengths(digits);
    let s = time_seconds(digits, unit);
    law_lengths_are_ordered_as_numbers(s, 5, 0);
    law_lengths_are_ordered_as_numbers(s, 1, 0);
    law_lengths_are_ordered_as_numbers(86400, s, 0);
    law_lengths_are_ordered_as_numbers(60, s, 0);
}

/// An `Http` action with a URL, a method and a retry policy has no finding
/// exactly where the URL has at most 2048 bytes, the method is one of the five
/// that are sent, the policy is of
/// a known type, retries 1 to 90 times, and waits 5 seconds to a day, or 1 to
/// 60 seconds in a Stateless workflow.
pub proof fn law_http_actions_are_judged_by_method_and_retries(
    action: &Node,
    inputs: &Node,
    policy: &Node,
    count: &Node,
    retries: u64,
    kind: Seq<char>,
    method: Seq<char>,
    host: Seq<char>,
    policy_type: Seq<char>,
    digits: Seq<char>,
    unit: char,
    pointer: Seq<char>,
    container: Seq<char>,
    file: &Document,
    workflow: &Workflow,
    scope: &ArmScope,
)
    requires
        is_plain(file, scope),
        holds_only(action, seq!["type"@, "inputs"@]),
        text_field(action, "type"@) == Some(kind),
        same_ignoring_case(kind, "Http"@),
        field(action, "inputs"@) == Some(*inputs),
        inputs.kind is Object,
        holds_only(inputs, seq!["method"@, "uri"@, "retryPolicy"@]),
        text_field(inputs, "method"@) == Some(method),
        is_unmarked(method),
        text_field(inputs, "uri"@) == Some("https"@ + seq![':', '/', '/'] + host),
        is_host(host),
        field(inputs, "retryPolicy"@) == Some(*policy),
        policy.kind is Object,
        holds_only(policy, seq!["type"@, "count"@, "interval"@]),
        text_field(policy, "type"@) == Some(policy_type),
        is_unmarked(policy_type),
        field(policy, "count"@) == Some(*count),
        count.kind == Json::Number(Number::PosInt(retries)),
        text_field(policy, "interval"@) == Some(seq!['P', 'T'] + digits + seq![unit]),
        is_run(digits),
        unit == 'S' || unit == 'M' || unit == 'H',
    ensures
        (authored_action_findings(action, pointer, container, file, workflow, scope).len() == 0)
            == {
            &&& host.len() <= 2040
            &&& method == "DELETE"@ || method == "GET"@ || method == "PATCH"@ || method == "POST"@
                || method == "PUT"@
            &&& same_ignoring_case(policy_type, "Default"@) || same_ignoring_case(
                policy_type,
                "Exponential"@,
            ) || same_ignoring_case(policy_type, "Fixed"@) || same_ignoring_case(
                policy_type,
                "None"@,
            )
            &&& 1 <= retries <= 90
            &&& if keeps_state(workflow) {
                5 <= time_seconds(digits, unit) <= 86400
            } else {
                1 <= time_seconds(digits, unit) <= 60
            }
        },
{
    let declared = field(action, "type"@)->Some_0;
    lemma_plain(file, scope);
    lemma_action_alone(action);
    lemma_action_types(kind);
    lemma_action_by_type(
        action,
        pointer,
        container,
        file,
        workflow,
        scope,
        &declared,
        kind,
        ActionSpec::Http,
    );
    lemma_inputs_alone(inputs);
    lemma_policy_alone(policy);
    lemma_unmarked_is_literal(method);
    lemma_unmarked_is_literal(policy_type);
    lemma_endpoint_method_names(method);
    lemma_retry_policy_type_names(policy_type);
    let uri = "https"@ + seq![':', '/', '/'] + host;
    reveal_strlit("https");
    assert(uri =~= "https"@ + seq![':', '/', '/'] + host + Seq::empty());
    law_urls_are_told_by_their_scheme("https"@, host, Seq::empty());
    assert(same_ignoring_case("https"@, "https"@));
    assert forall|i: int| 0 <= i < uri.len() implies #[trigger] uri[i] != '@' by {
        if i >= 8 {
            assert(uri[i] == host[i - 8]);
        }
    }
    lemma_unmarked_is_literal(uri);
    assert(is_ascii_chars(uri)) by {
        assert forall|i: int| 0 <= i < uri.len() implies #[trigger] uri[i] as nat <= 127 by {
            if i >= 8 {
                assert(uri[i] == host[i - 8]);
            }
        }
    }
    is_ascii_chars_encode_utf8(uri);
    let at = joined(pointer, "inputs"@);
    let base = joined(at, "retryPolicy"@);
    let label = "Http inputs"@;
    lemma_interval(
        policy,
        base,
        "interval"@,
        label + ".retryPolicy.interval"@,
        digits,
        unit,
        file,
        workflow,
        scope,
    );
    let type_found = retry_type_findings(policy, base, label, file);
    assert((type_found.len() == 0) == (same_ignoring_case(policy_type, "Default"@)
        || same_ignoring_case(policy_type, "Exponential"@) || same_ignoring_case(
        policy_type,
        "Fixed"@,
    ) || same_ignoring_case(policy_type, "None"@)));
    assert(retry_required_findings(policy, base, file).len() == 0);
    let policy_found = retry_policy_object_findings(
        policy,
        base,
        label,
        bounds_of(workflow),
        file,
    );
    let interval_found = retry_interval_findings(
        policy,
        base,
        "interval"@,
        label + ".retryPolicy.interval"@,
        bounds_of(workflow),
        file,
    );
    assert((policy_found.len() == 0) == (type_found.len() == 0 && 1 <= retries <= 90
        && interval_found.len() == 0));
    assert(http_inputs_findings(inputs, at, label, bounds_of(workflow), file).len()
        == policy_found.len());
    let inputs_found = http_action_inputs_findings(inputs, at, file, workflow);
    assert((inputs_found.len() == 0) == (host.len() <= 2040 && one_of(method, endpoint_method_names())
        && policy_found.len() == 0));
}

/// A retry policy with these members has nothing else.
proof fn lemma_policy_alone(node: &Node)
    requires
        holds_only(node, seq!["type"@, "count"@, "interval"@]),
    ensures
        field(node, "minimumInterval"@) is None,
        field(node, "maximumInterval"@) is None,
{
    reveal_strlit("type");
    reveal_strlit("count");
    reveal_strlit("interval");
    reveal_strlit("minimumInterval");
    reveal_strlit("maximumInterval");
    assert("type"@.len() == 4 && "type"@[0] == 't');
    assert("count"@.len() == 5 && "count"@[0] == 'c');
    assert("interval"@.len() == 8 && "interval"@[0] == 'i');
    assert("minimumInterval"@.len() == 15 && "minimumInterval"@[0] == 'm' && "minimumInterval"@[1] == 'i');
    assert("maximumInterval"@.len() == 15 && "maximumInterval"@[0] == 'm' && "maximumInterval"@[1] == 'a');
    let keys = seq!["type"@, "count"@, "interval"@];
    if field(node, "minimumInterval"@) is Some {
        assert(keys.contains("minimumInterval"@));
        let i = choose|i: int| 0 <= i < keys.len() && keys[i] == "minimumInterval"@;
        assert(keys[i] == "minimumInterval"@);
    }
    if field(node, "maximumInterval"@) is Some {
        assert(keys.contains("maximumInterval"@));
        let i = choose|i: int| 0 <= i < keys.len() && keys[i] == "maximumInterval"@;
        assert(keys[i] == "maximumInterval"@);
    }
}

} // verus!
