//! What the fields that actions and triggers share are judged by.

use vstd::prelude::*;

use crate::arm::ArmScope;
use crate::json::{field, joined, text_field, text_of, Document, Json, Node, Number};
use crate::shape::common::{
    common_findings, common_kind_names, limit_action_type_names, limit_trigger_type_names,
};
use crate::shape::content_transfer::{transfer_mode_names, transfer_type_names};

use crate::shape::duration_laws::{is_run, law_components_are_durations};

use crate::shape::operation_options::{
    action_option_names, authorization_headers_type_names, disable_async_type_names, is_separator,
    option_findings, option_list_findings, option_tokens, suppress_headers_type_names,
    token_between, tokens_from, trigger_option_names,
};
use crate::shape::plain_laws::{holds_only, is_plain, keeps_state, lemma_plain};
use crate::shape::recurrence_laws::{is_unmarked, lemma_unmarked_is_literal};
use crate::shape::secure_data::{
    insecure_input_type_names, insecure_output_type_names, secure_property_findings,
    secure_property_names,
};
use crate::shape::static_results::static_result_option_names;
use crate::text::{one_of, one_of_ignoring_case, same_ignoring_case};
use crate::workflow::Workflow;

verus! {

proof fn lemma_labels()
    ensures
        "action"@ != "trigger"@,
{
    reveal_strlit("action");
    reveal_strlit("trigger");
    assert("action"@.len() == 6 && "action"@[0] == 'a');
    assert("trigger"@.len() == 7 && "trigger"@[0] == 't');
}

/// One word of an option list.
pub open spec fn is_option_word(text: Seq<char>) -> bool {
    &&& text.len() > 0
    &&& forall|i: int|
        0 <= i < text.len() ==> (('a' <= #[trigger] text[i] <= 'z') || ('A' <= text[i] <= 'Z') || (
        '0' <= text[i] <= '9'))
}

/// A node with these members has nothing else that nodes share.
proof fn lemma_besides_description(node: &Node)
    requires
        holds_only(node, seq!["type"@, "inputs"@, "description"@]),
    ensures
        field(node, "operationOptions"@) is None,
        field(node, "runtimeConfiguration"@) is None,
        field(node, "limit"@) is None,
        field(node, "trackedProperties"@) is None,
        field(node, "kind"@) is None,
{
    reveal_strlit("type");
    reveal_strlit("inputs");
    reveal_strlit("description");
    reveal_strlit("operationOptions");
    reveal_strlit("runtimeConfiguration");
    reveal_strlit("limit");
    reveal_strlit("trackedProperties");
    reveal_strlit("kind");
    assert("type"@.len() == 4 && "type"@[0] == 't');
    assert("inputs"@.len() == 6 && "inputs"@[0] == 'i');
    assert("description"@.len() == 11 && "description"@[0] == 'd');
    assert("operationOptions"@.len() == 16 && "operationOptions"@[0] == 'o');
    assert("runtimeConfiguration"@.len() == 20 && "runtimeConfiguration"@[0] == 'r');
    assert("limit"@.len() == 5 && "limit"@[0] == 'l');
    assert("trackedProperties"@.len() == 17 && "trackedProperties"@[0] == 't');
    assert("kind"@.len() == 4 && "kind"@[0] == 'k');
    let keys = seq!["type"@, "inputs"@, "description"@];
    if field(node, "operationOptions"@) is Some {
        assert(keys.contains("operationOptions"@));
        let i = choose|i: int| 0 <= i < keys.len() && keys[i] == "operationOptions"@;
        assert(keys[i] == "operationOptions"@);
    }
    if field(node, "runtimeConfiguration"@) is Some {
        assert(keys.contains("runtimeConfiguration"@));
        let i = choose|i: int| 0 <= i < keys.len() && keys[i] == "runtimeConfiguration"@;
        assert(keys[i] == "runtimeConfiguration"@);
    }
    if field(node, "limit"@) is Some {
        assert(keys.contains("limit"@));
        let i = choose|i: int| 0 <= i < keys.len() && keys[i] == "limit"@;
        assert(keys[i] == "limit"@);
    }
    if field(node, "trackedProperties"@) is Some {
        assert(keys.contains("trackedProperties"@));
        let i = choose|i: int| 0 <= i < keys.len() && keys[i] == "trackedProperties"@;
        assert(keys[i] == "trackedProperties"@);
    }
    if field(node, "kind"@) is Some {
        assert(keys.contains("kind"@));
        let i = choose|i: int| 0 <= i < keys.len() && keys[i] == "kind"@;
        assert(keys[i] == "kind"@);
    }
}

/// A description is clean exactly where it has at most 256 characters.
pub proof fn law_action_descriptions_are_short(
    node: &Node,
    kind: Seq<char>,
    text: Seq<char>,
    pointer: Seq<char>,
    file: &Document,
    workflow: &Workflow,
    scope: &ArmScope,
)
    requires
        is_plain(file, scope),
        holds_only(node, seq!["type"@, "inputs"@, "description"@]),
        text_field(node, "type"@) == Some(kind),
        text_field(node, "description"@) == Some(text),
    ensures
        (common_findings(node, pointer, "action"@, file, workflow, scope).len() == 0) == (text.len() <= 256),
{
    lemma_plain(file, scope);
    lemma_labels();
    lemma_besides_description(node);
}

/// A description is clean exactly where it has at most 256 characters.
pub proof fn law_trigger_descriptions_are_short(
    node: &Node,
    kind: Seq<char>,
    text: Seq<char>,
    pointer: Seq<char>,
    file: &Document,
    workflow: &Workflow,
    scope: &ArmScope,
)
    requires
        is_plain(file, scope),
        holds_only(node, seq!["type"@, "inputs"@, "description"@]),
        text_field(node, "type"@) == Some(kind),
        text_field(node, "description"@) == Some(text),
    ensures
        (common_findings(node, pointer, "trigger"@, file, workflow, scope).len() == 0) == (text.len() <= 256),
{
    lemma_plain(file, scope);
    lemma_labels();
    lemma_besides_description(node);
}

proof fn lemma_common_kind_names(name: Seq<char>)
    ensures
        one_of(name, common_kind_names()) == (name == "AddToTime"@ || name == "Alert"@ || name == "ApiConnection"@ || name == "AzureMonitorAlert"@ || name == "Button"@ || name == "ConvertTimeZone"@ || name == "CurrentTime"@ || name == "EventGrid"@ || name == "Geofence"@ || name == "GetFutureTime"@ || name == "GetPastTime"@ || name == "Http"@ || name == "JsonToJson"@ || name == "JsonToText"@ || name == "PowerApp"@ || name == "SecurityCenterAlert"@ || name == "SubtractFromTime"@ || name == "XmlToJson"@ || name == "XmlToText"@),
{
    let list = common_kind_names();
    if one_of(name, list) {
        let k = choose|k: int| 0 <= k < list.len() && list[k] == name;
        assert(list[k] == name);
    }
    assert(list[0] == "AddToTime"@);
    assert(list[1] == "Alert"@);
    assert(list[2] == "ApiConnection"@);
    assert(list[3] == "AzureMonitorAlert"@);
    assert(list[4] == "Button"@);
    assert(list[5] == "ConvertTimeZone"@);
    assert(list[6] == "CurrentTime"@);
    assert(list[7] == "EventGrid"@);
    assert(list[8] == "Geofence"@);
    assert(list[9] == "GetFutureTime"@);
    assert(list[10] == "GetPastTime"@);
    assert(list[11] == "Http"@);
    assert(list[12] == "JsonToJson"@);
    assert(list[13] == "JsonToText"@);
    assert(list[14] == "PowerApp"@);
    assert(list[15] == "SecurityCenterAlert"@);
    assert(list[16] == "SubtractFromTime"@);
    assert(list[17] == "XmlToJson"@);
    assert(list[18] == "XmlToText"@);
}

/// A node with these members has nothing else that nodes share.
proof fn lemma_besides_kind(node: &Node)
    requires
        holds_only(node, seq!["type"@, "inputs"@, "kind"@]),
    ensures
        field(node, "description"@) is None,
        field(node, "operationOptions"@) is None,
        field(node, "runtimeConfiguration"@) is None,
        field(node, "limit"@) is None,
        field(node, "trackedProperties"@) is None,
{
    reveal_strlit("type");
    reveal_strlit("inputs");
    reveal_strlit("kind");
    reveal_strlit("description");
    reveal_strlit("operationOptions");
    reveal_strlit("runtimeConfiguration");
    reveal_strlit("limit");
    reveal_strlit("trackedProperties");
    assert("type"@.len() == 4 && "type"@[0] == 't');
    assert("inputs"@.len() == 6 && "inputs"@[0] == 'i');
    assert("kind"@.len() == 4 && "kind"@[0] == 'k');
    assert("description"@.len() == 11 && "description"@[0] == 'd');
    assert("operationOptions"@.len() == 16 && "operationOptions"@[0] == 'o');
    assert("runtimeConfiguration"@.len() == 20 && "runtimeConfiguration"@[0] == 'r');
    assert("limit"@.len() == 5 && "limit"@[0] == 'l');
    assert("trackedProperties"@.len() == 17 && "trackedProperties"@[0] == 't');
    let keys = seq!["type"@, "inputs"@, "kind"@];
    if field(node, "description"@) is Some {
        assert(keys.contains("description"@));
        let i = choose|i: int| 0 <= i < keys.len() && keys[i] == "description"@;
        assert(keys[i] == "description"@);
    }
    if field(node, "operationOptions"@) is Some {
        assert(keys.contains("operationOptions"@));
        let i = choose|i: int| 0 <= i < keys.len() && keys[i] == "operationOptions"@;
        assert(keys[i] == "operationOptions"@);
    }
    if field(node, "runtimeConfiguration"@) is Some {
        assert(keys.contains("runtimeConfiguration"@));
        let i = choose|i: int| 0 <= i < keys.len() && keys[i] == "runtimeConfiguration"@;
        assert(keys[i] == "runtimeConfiguration"@);
    }
    if field(node, "limit"@) is Some {
        assert(keys.contains("limit"@));
        let i = choose|i: int| 0 <= i < keys.len() && keys[i] == "limit"@;
        assert(keys[i] == "limit"@);
    }
    if field(node, "trackedProperties"@) is Some {
        assert(keys.contains("trackedProperties"@));
        let i = choose|i: int| 0 <= i < keys.len() && keys[i] == "trackedProperties"@;
        assert(keys[i] == "trackedProperties"@);
    }
}

/// The kind of a trigger is clean exactly where it is one of those that exist.
pub proof fn law_trigger_kinds_are_known(
    node: &Node,
    kind: Seq<char>,
    form: Seq<char>,
    pointer: Seq<char>,
    file: &Document,
    workflow: &Workflow,
    scope: &ArmScope,
)
    requires
        is_plain(file, scope),
        holds_only(node, seq!["type"@, "inputs"@, "kind"@]),
        text_field(node, "type"@) == Some(kind),
        text_field(node, "kind"@) == Some(form),
    ensures
        (common_findings(node, pointer, "trigger"@, file, workflow, scope).len() == 0) == (form == "AddToTime"@ || form == "Alert"@ || form == "ApiConnection"@ || form == "AzureMonitorAlert"@ || form == "Button"@ || form == "ConvertTimeZone"@ || form == "CurrentTime"@ || form == "EventGrid"@ || form == "Geofence"@ || form == "GetFutureTime"@ || form == "GetPastTime"@ || form == "Http"@ || form == "JsonToJson"@ || form == "JsonToText"@ || form == "PowerApp"@ || form == "SecurityCenterAlert"@ || form == "SubtractFromTime"@ || form == "XmlToJson"@ || form == "XmlToText"@),
{
    lemma_plain(file, scope);
    lemma_labels();
    lemma_besides_kind(node);
    lemma_common_kind_names(form);
}

/// The kind of an action is clean exactly where it is one of those that exist, or
/// `http` on a response.
pub proof fn law_action_kinds_are_known(
    node: &Node,
    kind: Seq<char>,
    form: Seq<char>,
    pointer: Seq<char>,
    file: &Document,
    workflow: &Workflow,
    scope: &ArmScope,
)
    requires
        is_plain(file, scope),
        holds_only(node, seq!["type"@, "inputs"@, "kind"@]),
        text_field(node, "type"@) == Some(kind),
        text_field(node, "kind"@) == Some(form),
    ensures
        (common_findings(node, pointer, "action"@, file, workflow, scope).len() == 0) == (form == "AddToTime"@ || form == "Alert"@ || form == "ApiConnection"@ || form == "AzureMonitorAlert"@ || form == "Button"@ || form == "ConvertTimeZone"@ || form == "CurrentTime"@ || form == "EventGrid"@ || form == "Geofence"@ || form == "GetFutureTime"@ || form == "GetPastTime"@ || form == "Http"@ || form == "JsonToJson"@ || form == "JsonToText"@ || form == "PowerApp"@ || form == "SecurityCenterAlert"@ || form == "SubtractFromTime"@ || form == "XmlToJson"@ || form == "XmlToText"@ || (form == "http"@ && kind == "Response"@)),
{
    lemma_plain(file, scope);
    lemma_labels();
    lemma_besides_kind(node);
    lemma_common_kind_names(form);
}

proof fn lemma_limit_action_type_names(name: Seq<char>)
    ensures
        one_of_ignoring_case(name, limit_action_type_names()) == (same_ignoring_case(name, "ApiConnection"@) || same_ignoring_case(name, "ApiConnectionWebhook"@) || same_ignoring_case(name, "Http"@) || same_ignoring_case(name, "HttpWebhook"@) || same_ignoring_case(name, "Until"@) || same_ignoring_case(name, "Workflow"@)),
{
    let list = limit_action_type_names();
    assert(list[0] == "ApiConnection"@);
    assert(list[1] == "ApiConnectionWebhook"@);
    assert(list[2] == "Http"@);
    assert(list[3] == "HttpWebhook"@);
    assert(list[4] == "Until"@);
    assert(list[5] == "Workflow"@);
    if one_of_ignoring_case(name, list) {
        let k = choose|k: int| 0 <= k < list.len() && same_ignoring_case(name, #[trigger] list[k]);
        assert(same_ignoring_case(name, list[k]));
    }
}

proof fn lemma_limit_trigger_type_names(name: Seq<char>)
    ensures
        one_of_ignoring_case(name, limit_trigger_type_names()) == (same_ignoring_case(name, "ApiConnection"@) || same_ignoring_case(name, "ApiConnectionWebhook"@) || same_ignoring_case(name, "Http"@) || same_ignoring_case(name, "HttpWebhook"@)),
{
    let list = limit_trigger_type_names();
    assert(list[0] == "ApiConnection"@);
    assert(list[1] == "ApiConnectionWebhook"@);
    assert(list[2] == "Http"@);
    assert(list[3] == "HttpWebhook"@);
    if one_of_ignoring_case(name, list) {
        let k = choose|k: int| 0 <= k < list.len() && same_ignoring_case(name, #[trigger] list[k]);
        assert(same_ignoring_case(name, list[k]));
    }
}

/// A node with these members has nothing else that nodes share.
proof fn lemma_besides_limit(node: &Node)
    requires
        holds_only(node, seq!["type"@, "inputs"@, "limit"@]),
    ensures
        field(node, "description"@) is None,
        field(node, "operationOptions"@) is None,
        field(node, "runtimeConfiguration"@) is None,
        field(node, "trackedProperties"@) is None,
        field(node, "kind"@) is None,
{
    reveal_strlit("type");
    reveal_strlit("inputs");
    reveal_strlit("limit");
    reveal_strlit("description");
    reveal_strlit("operationOptions");
    reveal_strlit("runtimeConfiguration");
    reveal_strlit("trackedProperties");
    reveal_strlit("kind");
    assert("type"@.len() == 4 && "type"@[0] == 't');
    assert("inputs"@.len() == 6 && "inputs"@[0] == 'i');
    assert("limit"@.len() == 5 && "limit"@[0] == 'l');
    assert("description"@.len() == 11 && "description"@[0] == 'd');
    assert("operationOptions"@.len() == 16 && "operationOptions"@[0] == 'o');
    assert("runtimeConfiguration"@.len() == 20 && "runtimeConfiguration"@[0] == 'r');
    assert("trackedProperties"@.len() == 17 && "trackedProperties"@[0] == 't');
    assert("kind"@.len() == 4 && "kind"@[0] == 'k');
    let keys = seq!["type"@, "inputs"@, "limit"@];
    if field(node, "description"@) is Some {
        assert(keys.contains("description"@));
        let i = choose|i: int| 0 <= i < keys.len() && keys[i] == "description"@;
        assert(keys[i] == "description"@);
    }
    if field(node, "operationOptions"@) is Some {
        assert(keys.contains("operationOptions"@));
        let i = choose|i: int| 0 <= i < keys.len() && keys[i] == "operationOptions"@;
        assert(keys[i] == "operationOptions"@);
    }
    if field(node, "runtimeConfiguration"@) is Some {
        assert(keys.contains("runtimeConfiguration"@));
        let i = choose|i: int| 0 <= i < keys.len() && keys[i] == "runtimeConfiguration"@;
        assert(keys[i] == "runtimeConfiguration"@);
    }
    if field(node, "trackedProperties"@) is Some {
        assert(keys.contains("trackedProperties"@));
        let i = choose|i: int| 0 <= i < keys.len() && keys[i] == "trackedProperties"@;
        assert(keys[i] == "trackedProperties"@);
    }
    if field(node, "kind"@) is Some {
        assert(keys.contains("kind"@));
        let i = choose|i: int| 0 <= i < keys.len() && keys[i] == "kind"@;
        assert(keys[i] == "kind"@);
    }
}

/// A timeout of an action is clean exactly where the type of the action respects
/// one.
pub proof fn law_action_timeouts_are_for_calls(
    node: &Node,
    kind: Seq<char>,
    limit: &Node,
    digits: Seq<char>,
    unit: char,
    pointer: Seq<char>,
    file: &Document,
    workflow: &Workflow,
    scope: &ArmScope,
)
    requires
        is_plain(file, scope),
        holds_only(node, seq!["type"@, "inputs"@, "limit"@]),
        text_field(node, "type"@) == Some(kind),
        field(node, "limit"@) == Some(*limit),
        limit.kind is Object,
        is_run(digits),
        unit == 'S' || unit == 'M' || unit == 'H',
        text_field(limit, "timeout"@) == Some(seq!['P', 'T'] + digits + seq![unit]),
    ensures
        (common_findings(node, pointer, "action"@, file, workflow, scope).len() == 0) == (same_ignoring_case(kind, "ApiConnection"@) || same_ignoring_case(kind, "ApiConnectionWebhook"@) || same_ignoring_case(kind, "Http"@) || same_ignoring_case(kind, "HttpWebhook"@) || same_ignoring_case(kind, "Until"@) || same_ignoring_case(kind, "Workflow"@)),
{
    lemma_plain(file, scope);
    lemma_labels();
    lemma_besides_limit(node);
    let text = seq!['P', 'T'] + digits + seq![unit];
    law_components_are_durations(digits, unit);
    assert forall|i: int| 0 <= i < text.len() implies #[trigger] text[i] != '@' by {
        if 2 <= i < text.len() - 1 {
            assert(text[i] == digits[i - 2]);
        }
    }
    lemma_unmarked_is_literal(text);
    lemma_limit_action_type_names(kind);
}

/// A timeout of a trigger is clean exactly where the type of the trigger respects
/// one.
pub proof fn law_trigger_timeouts_are_for_calls(
    node: &Node,
    kind: Seq<char>,
    limit: &Node,
    digits: Seq<char>,
    unit: char,
    pointer: Seq<char>,
    file: &Document,
    workflow: &Workflow,
    scope: &ArmScope,
)
    requires
        is_plain(file, scope),
        holds_only(node, seq!["type"@, "inputs"@, "limit"@]),
        text_field(node, "type"@) == Some(kind),
        field(node, "limit"@) == Some(*limit),
        limit.kind is Object,
        is_run(digits),
        unit == 'S' || unit == 'M' || unit == 'H',
        text_field(limit, "timeout"@) == Some(seq!['P', 'T'] + digits + seq![unit]),
    ensures
        (common_findings(node, pointer, "trigger"@, file, workflow, scope).len() == 0) == (same_ignoring_case(kind, "ApiConnection"@) || same_ignoring_case(kind, "ApiConnectionWebhook"@) || same_ignoring_case(kind, "Http"@) || same_ignoring_case(kind, "HttpWebhook"@)),
{
    lemma_plain(file, scope);
    lemma_labels();
    lemma_besides_limit(node);
    let text = seq!['P', 'T'] + digits + seq![unit];
    law_components_are_durations(digits, unit);
    assert forall|i: int| 0 <= i < text.len() implies #[trigger] text[i] != '@' by {
        if 2 <= i < text.len() - 1 {
            assert(text[i] == digits[i - 2]);
        }
    }
    lemma_unmarked_is_literal(text);
    lemma_limit_trigger_type_names(kind);
}

proof fn lemma_word(text: Seq<char>, i: int, from: int, end: int)
    requires
        0 <= from < i <= end <= text.len(),
        forall|k: int| from <= k < end ==> #[trigger] text[k] != '@' && !is_separator(text[k]),
    ensures
        tokens_from(text, i, Some(from)) == tokens_from(text, end, Some(from)),
    decreases end - i,
{
    if i < end {
        assert(text[i] != '@');
        lemma_word(text, i + 1, from, end);
    }
}

proof fn lemma_shifted_tokens(text: Seq<char>, rest: Seq<char>, by: int, i: int, start: Option<int>)
    requires
        0 <= by <= text.len(),
        rest == text.skip(by),
        0 <= i <= rest.len(),
        is_unmarked(rest),
        start is Some ==> 0 <= start->Some_0 < i,
    ensures
        tokens_from(text, i + by, match start {
            Some(s) => Some(s + by),
            None => None,
        }) == tokens_from(rest, i, start),
    decreases rest.len() - i,
{
    let moved = match start {
        Some(s) => Some(s + by),
        None => None,
    };
    if start is Some {
        assert(text.subrange(start->Some_0 + by, i + by) =~= rest.subrange(start->Some_0, i));
    }
    assert(token_between(text, moved, i + by) == token_between(rest, start, i));
    if i < rest.len() {
        assert(text[i + by] == rest[i]);
        assert(rest[i] != '@');
        if is_separator(rest[i]) {
            lemma_shifted_tokens(text, rest, by, i + 1, None);
        } else {
            let begun = if start is Some {
                start
            } else {
                Some(i)
            };
            lemma_shifted_tokens(text, rest, by, i + 1, begun);
        }
    }
}

proof fn lemma_word_tokens(word: Seq<char>)
    requires
        is_option_word(word),
    ensures
        is_unmarked(word),
        forall|k: int| 0 <= k < word.len() ==> #[trigger] word[k] != '@' && !is_separator(word[k]),
{
}

/// An option list is read word by word, with a comma or a space after each.
pub proof fn law_options_are_read_one_by_one(word: Seq<char>, mark: char, rest: Seq<char>)
    requires
        is_option_word(word),
        is_unmarked(rest),
        mark == ',' || mark == ' ',
    ensures
        option_tokens(word) == seq![word],
        option_tokens(word + seq![mark] + rest) == seq![word] + option_tokens(rest),
        option_tokens(seq![mark] + rest) == option_tokens(rest),
{
    lemma_word_tokens(word);
    let n = word.len() as int;
    lemma_word(word, 1, 0, n);
    assert(word[0] != '@');
    assert(word.subrange(0, n) =~= word);
    assert(tokens_from(word, 0, None) == tokens_from(word, 1, Some(0)));
    assert(option_tokens(word) =~= seq![word]);
    let text = word + seq![mark] + rest;
    assert forall|k: int| 0 <= k < n implies #[trigger] text[k] != '@' && !is_separator(text[k]) by {
        assert(text[k] == word[k]);
    }
    lemma_word(text, 1, 0, n);
    assert(text[0] == word[0]);
    assert(tokens_from(text, 0, None) == tokens_from(text, 1, Some(0)));
    assert(text[n] == mark);
    assert(text.subrange(0, n) =~= word);
    assert(text.skip(n + 1) =~= rest);
    lemma_shifted_tokens(text, rest, n + 1, 0, None);
    assert(token_between(text, Some(0), n) == seq![word]);
    assert(tokens_from(text, n, Some(0)) == token_between(text, Some(0), n) + tokens_from(
        text,
        n + 1,
        None,
    ));
    let bare = seq![mark] + rest;
    assert(bare[0] == mark);
    assert(bare.skip(1) =~= rest);
    lemma_shifted_tokens(bare, rest, 1, 0, None);
    assert(token_between(bare, None, 0) + tokens_from(bare, 1, None) =~= tokens_from(
        bare,
        1,
        None,
    ));
}

proof fn lemma_action_option_names(name: Seq<char>)
    ensures
        one_of(name, action_option_names()) == (name == "DisableAsyncPattern"@ || name == "FailWhenLimitsReached"@ || name == "Sequential"@ || name == "SuppressWorkflowHeaders"@),
{
    let list = action_option_names();
    if one_of(name, list) {
        let k = choose|k: int| 0 <= k < list.len() && list[k] == name;
        assert(list[k] == name);
    }
    assert(list[0] == "DisableAsyncPattern"@);
    assert(list[1] == "FailWhenLimitsReached"@);
    assert(list[2] == "Sequential"@);
    assert(list[3] == "SuppressWorkflowHeaders"@);
}

proof fn lemma_trigger_option_names(name: Seq<char>)
    ensures
        one_of(name, trigger_option_names()) == (name == "IncludeAuthorizationHeadersInOutputs"@ || name == "SingleInstance"@ || name == "SuppressWorkflowHeadersOnResponse"@),
{
    let list = trigger_option_names();
    if one_of(name, list) {
        let k = choose|k: int| 0 <= k < list.len() && list[k] == name;
        assert(list[k] == name);
    }
    assert(list[0] == "IncludeAuthorizationHeadersInOutputs"@);
    assert(list[1] == "SingleInstance"@);
    assert(list[2] == "SuppressWorkflowHeadersOnResponse"@);
}

proof fn lemma_disable_async_type_names(name: Seq<char>)
    ensures
        one_of_ignoring_case(name, disable_async_type_names()) == (same_ignoring_case(name, "ApiConnection"@) || same_ignoring_case(name, "Http"@) || same_ignoring_case(name, "Response"@)),
{
    let list = disable_async_type_names();
    assert(list[0] == "ApiConnection"@);
    assert(list[1] == "Http"@);
    assert(list[2] == "Response"@);
    if one_of_ignoring_case(name, list) {
        let k = choose|k: int| 0 <= k < list.len() && same_ignoring_case(name, #[trigger] list[k]);
        assert(same_ignoring_case(name, list[k]));
    }
}

proof fn lemma_suppress_headers_type_names(name: Seq<char>)
    ensures
        one_of_ignoring_case(name, suppress_headers_type_names()) == (same_ignoring_case(name, "ApiManagement"@) || same_ignoring_case(name, "Function"@) || same_ignoring_case(name, "Http"@)),
{
    let list = suppress_headers_type_names();
    assert(list[0] == "ApiManagement"@);
    assert(list[1] == "Function"@);
    assert(list[2] == "Http"@);
    if one_of_ignoring_case(name, list) {
        let k = choose|k: int| 0 <= k < list.len() && same_ignoring_case(name, #[trigger] list[k]);
        assert(same_ignoring_case(name, list[k]));
    }
}

proof fn lemma_authorization_headers_type_names(name: Seq<char>)
    ensures
        one_of_ignoring_case(name, authorization_headers_type_names()) == (same_ignoring_case(name, "Request"@) || same_ignoring_case(name, "HttpWebhook"@)),
{
    let list = authorization_headers_type_names();
    assert(list[0] == "Request"@);
    assert(list[1] == "HttpWebhook"@);
    if one_of_ignoring_case(name, list) {
        let k = choose|k: int| 0 <= k < list.len() && same_ignoring_case(name, #[trigger] list[k]);
        assert(same_ignoring_case(name, list[k]));
    }
}

/// An action of a type may have an option.
pub open spec fn action_takes_option(kind: Seq<char>, option: Seq<char>) -> bool {
    ||| option == "DisableAsyncPattern"@ && (same_ignoring_case(kind, "ApiConnection"@) || same_ignoring_case(kind, "Http"@) || same_ignoring_case(kind, "Response"@))
    ||| option == "FailWhenLimitsReached"@ && same_ignoring_case(kind, "Until"@)
    ||| option == "Sequential"@ && same_ignoring_case(kind, "Foreach"@)
    ||| option == "SuppressWorkflowHeaders"@ && (same_ignoring_case(kind, "ApiManagement"@) || same_ignoring_case(kind, "Function"@) || same_ignoring_case(kind, "Http"@))
}

/// A trigger of a type may have an option, in a workflow that keeps state or
/// not.
pub open spec fn trigger_takes_option(kind: Seq<char>, option: Seq<char>, stateful: bool) -> bool {
    ||| option == "IncludeAuthorizationHeadersInOutputs"@ && (same_ignoring_case(kind, "Request"@) || same_ignoring_case(kind, "HttpWebhook"@))
    ||| option == "SingleInstance"@ && stateful
    ||| option == "SuppressWorkflowHeadersOnResponse"@ && (same_ignoring_case(kind, "Request"@) || same_ignoring_case(kind, "HttpWebhook"@))
}

/// A node with these members has nothing else that nodes share.
proof fn lemma_besides_operationoptions(node: &Node)
    requires
        holds_only(node, seq!["type"@, "inputs"@, "operationOptions"@]),
    ensures
        field(node, "description"@) is None,
        field(node, "runtimeConfiguration"@) is None,
        field(node, "limit"@) is None,
        field(node, "trackedProperties"@) is None,
        field(node, "kind"@) is None,
{
    reveal_strlit("type");
    reveal_strlit("inputs");
    reveal_strlit("operationOptions");
    reveal_strlit("description");
    reveal_strlit("runtimeConfiguration");
    reveal_strlit("limit");
    reveal_strlit("trackedProperties");
    reveal_strlit("kind");
    assert("type"@.len() == 4 && "type"@[0] == 't');
    assert("inputs"@.len() == 6 && "inputs"@[0] == 'i');
    assert("operationOptions"@.len() == 16 && "operationOptions"@[0] == 'o');
    assert("description"@.len() == 11 && "description"@[0] == 'd');
    assert("runtimeConfiguration"@.len() == 20 && "runtimeConfiguration"@[0] == 'r');
    assert("limit"@.len() == 5 && "limit"@[0] == 'l');
    assert("trackedProperties"@.len() == 17 && "trackedProperties"@[0] == 't');
    assert("kind"@.len() == 4 && "kind"@[0] == 'k');
    let keys = seq!["type"@, "inputs"@, "operationOptions"@];
    if field(node, "description"@) is Some {
        assert(keys.contains("description"@));
        let i = choose|i: int| 0 <= i < keys.len() && keys[i] == "description"@;
        assert(keys[i] == "description"@);
    }
    if field(node, "runtimeConfiguration"@) is Some {
        assert(keys.contains("runtimeConfiguration"@));
        let i = choose|i: int| 0 <= i < keys.len() && keys[i] == "runtimeConfiguration"@;
        assert(keys[i] == "runtimeConfiguration"@);
    }
    if field(node, "limit"@) is Some {
        assert(keys.contains("limit"@));
        let i = choose|i: int| 0 <= i < keys.len() && keys[i] == "limit"@;
        assert(keys[i] == "limit"@);
    }
    if field(node, "trackedProperties"@) is Some {
        assert(keys.contains("trackedProperties"@));
        let i = choose|i: int| 0 <= i < keys.len() && keys[i] == "trackedProperties"@;
        assert(keys[i] == "trackedProperties"@);
    }
    if field(node, "kind"@) is Some {
        assert(keys.contains("kind"@));
        let i = choose|i: int| 0 <= i < keys.len() && keys[i] == "kind"@;
        assert(keys[i] == "kind"@);
    }
}

/// An option of an action is clean exactly where the type of the action takes it.
pub proof fn law_action_options_go_by_type(
    node: &Node,
    kind: Seq<char>,
    option: Seq<char>,
    pointer: Seq<char>,
    file: &Document,
    workflow: &Workflow,
    scope: &ArmScope,
)
    requires
        is_plain(file, scope),
        holds_only(node, seq!["type"@, "inputs"@, "operationOptions"@]),
        text_field(node, "type"@) == Some(kind),
        text_field(node, "operationOptions"@) == Some(option),
        is_option_word(option),
    ensures
        (common_findings(node, pointer, "action"@, file, workflow, scope).len() == 0) == (action_takes_option(kind, option)),
{
    lemma_plain(file, scope);
    lemma_labels();
    lemma_besides_operationoptions(node);
    lemma_word_tokens(option);
    lemma_unmarked_is_literal(option);
    law_options_are_read_one_by_one(option, ',', Seq::empty());
    let tokens = option_tokens(option);
    lemma_action_option_names(option);
    lemma_disable_async_type_names(kind);
    lemma_suppress_headers_type_names(kind);
    reveal_strlit("DisableAsyncPattern");
    reveal_strlit("FailWhenLimitsReached");
    reveal_strlit("Sequential");
    reveal_strlit("SuppressWorkflowHeaders");
    assert("DisableAsyncPattern"@.len() == 19 && "DisableAsyncPattern"@[0] == 'D');
    assert("FailWhenLimitsReached"@.len() == 21 && "FailWhenLimitsReached"@[0] == 'F');
    assert("Sequential"@.len() == 10 && "Sequential"@[0] == 'S');
    assert("SuppressWorkflowHeaders"@.len() == 23 && "SuppressWorkflowHeaders"@[0] == 'S');
    assert(tokens.len() == 1 && tokens[0] == option);
    let options = field(node, "operationOptions"@)->Some_0;
    let found = option_findings(node, &options, option, pointer, "action"@, file, workflow);
    assert((found.len() == 0) == action_takes_option(kind, option));
    assert(option_list_findings(tokens, 0, node, &options, pointer, "action"@, file, workflow).len()
        == 0);
    assert(option_list_findings(
        tokens,
        1,
        node,
        &options,
        pointer,
        "action"@,
        file,
        workflow,
    ).len() == found.len());
}

/// An option of a trigger is clean exactly where the type of the trigger takes it.
pub proof fn law_trigger_options_go_by_type(
    node: &Node,
    kind: Seq<char>,
    option: Seq<char>,
    pointer: Seq<char>,
    file: &Document,
    workflow: &Workflow,
    scope: &ArmScope,
)
    requires
        is_plain(file, scope),
        holds_only(node, seq!["type"@, "inputs"@, "operationOptions"@]),
        text_field(node, "type"@) == Some(kind),
        text_field(node, "operationOptions"@) == Some(option),
        is_option_word(option),
    ensures
        (common_findings(node, pointer, "trigger"@, file, workflow, scope).len() == 0) == (trigger_takes_option(kind, option, keeps_state(workflow))),
{
    lemma_plain(file, scope);
    lemma_labels();
    lemma_besides_operationoptions(node);
    lemma_word_tokens(option);
    lemma_unmarked_is_literal(option);
    law_options_are_read_one_by_one(option, ',', Seq::empty());
    let tokens = option_tokens(option);
    lemma_trigger_option_names(option);
    lemma_authorization_headers_type_names(kind);
    reveal_strlit("IncludeAuthorizationHeadersInOutputs");
    reveal_strlit("SingleInstance");
    reveal_strlit("SuppressWorkflowHeadersOnResponse");
    assert("IncludeAuthorizationHeadersInOutputs"@.len() == 36 && "IncludeAuthorizationHeadersInOutputs"@[0] == 'I');
    assert("SingleInstance"@.len() == 14 && "SingleInstance"@[0] == 'S');
    assert("SuppressWorkflowHeadersOnResponse"@.len() == 33 && "SuppressWorkflowHeadersOnResponse"@[0] == 'S');
    assert(tokens.len() == 1 && tokens[0] == option);
    let options = field(node, "operationOptions"@)->Some_0;
    let found = option_findings(node, &options, option, pointer, "trigger"@, file, workflow);
    assert((found.len() == 0) == trigger_takes_option(kind, option, keeps_state(workflow)));
    assert(option_list_findings(tokens, 0, node, &options, pointer, "trigger"@, file, workflow).len()
        == 0);
    assert(option_list_findings(
        tokens,
        1,
        node,
        &options,
        pointer,
        "trigger"@,
        file,
        workflow,
    ).len() == found.len());
}

/// Concurrency with these members has nothing else.
proof fn lemma_runs_alone(node: &Node)
    requires
        holds_only(node, seq!["runs"@, "maximumWaitingRuns"@]),
    ensures
        field(node, "repetitions"@) is None,
{
    reveal_strlit("runs");
    reveal_strlit("maximumWaitingRuns");
    reveal_strlit("repetitions");
    assert("runs"@.len() == 4 && "runs"@[0] == 'r');
    assert("maximumWaitingRuns"@.len() == 18 && "maximumWaitingRuns"@[0] == 'm');
    assert("repetitions"@.len() == 11 && "repetitions"@[0] == 'r');
    let keys = seq!["runs"@, "maximumWaitingRuns"@];
    if field(node, "repetitions"@) is Some {
        assert(keys.contains("repetitions"@));
        let i = choose|i: int| 0 <= i < keys.len() && keys[i] == "repetitions"@;
        assert(keys[i] == "repetitions"@);
    }
}

/// Concurrency with this member has nothing else.
proof fn lemma_repetitions_alone(node: &Node)
    requires
        holds_only(node, seq!["repetitions"@]),
    ensures
        field(node, "runs"@) is None,
        field(node, "maximumWaitingRuns"@) is None,
{
    reveal_strlit("repetitions");
    reveal_strlit("runs");
    reveal_strlit("maximumWaitingRuns");
    assert("repetitions"@.len() == 11 && "repetitions"@[0] == 'r');
    assert("runs"@.len() == 4 && "runs"@[0] == 'r');
    assert("maximumWaitingRuns"@.len() == 18 && "maximumWaitingRuns"@[0] == 'm');
    let keys = seq!["repetitions"@];
    if field(node, "runs"@) is Some {
        assert(keys.contains("runs"@));
        let i = choose|i: int| 0 <= i < keys.len() && keys[i] == "runs"@;
        assert(keys[i] == "runs"@);
    }
    if field(node, "maximumWaitingRuns"@) is Some {
        assert(keys.contains("maximumWaitingRuns"@));
        let i = choose|i: int| 0 <= i < keys.len() && keys[i] == "maximumWaitingRuns"@;
        assert(keys[i] == "maximumWaitingRuns"@);
    }
}

/// A node with these members has nothing else that nodes share.
proof fn lemma_besides_runtimeconfiguration(node: &Node)
    requires
        holds_only(node, seq!["type"@, "inputs"@, "runtimeConfiguration"@]),
    ensures
        field(node, "description"@) is None,
        field(node, "operationOptions"@) is None,
        field(node, "limit"@) is None,
        field(node, "trackedProperties"@) is None,
        field(node, "kind"@) is None,
{
    reveal_strlit("type");
    reveal_strlit("inputs");
    reveal_strlit("runtimeConfiguration");
    reveal_strlit("description");
    reveal_strlit("operationOptions");
    reveal_strlit("limit");
    reveal_strlit("trackedProperties");
    reveal_strlit("kind");
    assert("type"@.len() == 4 && "type"@[0] == 't');
    assert("inputs"@.len() == 6 && "inputs"@[0] == 'i');
    assert("runtimeConfiguration"@.len() == 20 && "runtimeConfiguration"@[0] == 'r');
    assert("description"@.len() == 11 && "description"@[0] == 'd');
    assert("operationOptions"@.len() == 16 && "operationOptions"@[0] == 'o');
    assert("limit"@.len() == 5 && "limit"@[0] == 'l');
    assert("trackedProperties"@.len() == 17 && "trackedProperties"@[0] == 't');
    assert("kind"@.len() == 4 && "kind"@[0] == 'k');
    let keys = seq!["type"@, "inputs"@, "runtimeConfiguration"@];
    if field(node, "description"@) is Some {
        assert(keys.contains("description"@));
        let i = choose|i: int| 0 <= i < keys.len() && keys[i] == "description"@;
        assert(keys[i] == "description"@);
    }
    if field(node, "operationOptions"@) is Some {
        assert(keys.contains("operationOptions"@));
        let i = choose|i: int| 0 <= i < keys.len() && keys[i] == "operationOptions"@;
        assert(keys[i] == "operationOptions"@);
    }
    if field(node, "limit"@) is Some {
        assert(keys.contains("limit"@));
        let i = choose|i: int| 0 <= i < keys.len() && keys[i] == "limit"@;
        assert(keys[i] == "limit"@);
    }
    if field(node, "trackedProperties"@) is Some {
        assert(keys.contains("trackedProperties"@));
        let i = choose|i: int| 0 <= i < keys.len() && keys[i] == "trackedProperties"@;
        assert(keys[i] == "trackedProperties"@);
    }
    if field(node, "kind"@) is Some {
        assert(keys.contains("kind"@));
        let i = choose|i: int| 0 <= i < keys.len() && keys[i] == "kind"@;
        assert(keys[i] == "kind"@);
    }
}

/// A runtime configuration with this member has nothing else.
proof fn lemma_besides_concurrency(node: &Node)
    requires
        holds_only(node, seq!["concurrency"@]),
    ensures
        field(node, "maximumWaitingRuns"@) is None,
        field(node, "paginationPolicy"@) is None,
        field(node, "contentTransfer"@) is None,
        field(node, "secureData"@) is None,
        field(node, "staticResult"@) is None,
{
    reveal_strlit("concurrency");
    reveal_strlit("maximumWaitingRuns");
    reveal_strlit("paginationPolicy");
    reveal_strlit("contentTransfer");
    reveal_strlit("secureData");
    reveal_strlit("staticResult");
    assert("concurrency"@.len() == 11 && "concurrency"@[0] == 'c');
    assert("maximumWaitingRuns"@.len() == 18 && "maximumWaitingRuns"@[0] == 'm');
    assert("paginationPolicy"@.len() == 16 && "paginationPolicy"@[0] == 'p');
    assert("contentTransfer"@.len() == 15 && "contentTransfer"@[0] == 'c');
    assert("secureData"@.len() == 10 && "secureData"@[0] == 's');
    assert("staticResult"@.len() == 12 && "staticResult"@[0] == 's');
    let keys = seq!["concurrency"@];
    if field(node, "maximumWaitingRuns"@) is Some {
        assert(keys.contains("maximumWaitingRuns"@));
        let i = choose|i: int| 0 <= i < keys.len() && keys[i] == "maximumWaitingRuns"@;
        assert(keys[i] == "maximumWaitingRuns"@);
    }
    if field(node, "paginationPolicy"@) is Some {
        assert(keys.contains("paginationPolicy"@));
        let i = choose|i: int| 0 <= i < keys.len() && keys[i] == "paginationPolicy"@;
        assert(keys[i] == "paginationPolicy"@);
    }
    if field(node, "contentTransfer"@) is Some {
        assert(keys.contains("contentTransfer"@));
        let i = choose|i: int| 0 <= i < keys.len() && keys[i] == "contentTransfer"@;
        assert(keys[i] == "contentTransfer"@);
    }
    if field(node, "secureData"@) is Some {
        assert(keys.contains("secureData"@));
        let i = choose|i: int| 0 <= i < keys.len() && keys[i] == "secureData"@;
        assert(keys[i] == "secureData"@);
    }
    if field(node, "staticResult"@) is Some {
        assert(keys.contains("staticResult"@));
        let i = choose|i: int| 0 <= i < keys.len() && keys[i] == "staticResult"@;
        assert(keys[i] == "staticResult"@);
    }
}

/// The runs of a trigger are clean exactly where they are 1 to 100 and the workflow
/// keeps state; with waiting runs, where these are at least ten more and at most
/// 100, or 200 in a Standard workflow, and the trigger is no recurrence.
pub proof fn law_runs_are_limited(
    node: &Node,
    kind: Seq<char>,
    runtime: &Node,
    setting: &Node,
    runs: u64,
    waiting: Option<u64>,
    pointer: Seq<char>,
    file: &Document,
    workflow: &Workflow,
    scope: &ArmScope,
)
    requires
        is_plain(file, scope),
        holds_only(node, seq!["type"@, "inputs"@, "runtimeConfiguration"@]),
        text_field(node, "type"@) == Some(kind),
        field(node, "runtimeConfiguration"@) == Some(*runtime),
        runtime.kind is Object,
        holds_only(runtime, seq!["concurrency"@]),
        field(runtime, "concurrency"@) == Some(*setting),
        setting.kind is Object,
        holds_only(setting, seq!["runs"@, "maximumWaitingRuns"@]),
        field(setting, "runs"@) is Some,
        (field(setting, "runs"@)->Some_0).kind == Json::Number(Number::PosInt(runs)),
        match waiting {
            Some(count) => field(setting, "maximumWaitingRuns"@) is Some && (field(
                setting,
                "maximumWaitingRuns"@,
            )->Some_0).kind == Json::Number(Number::PosInt(count)),
            None => field(setting, "maximumWaitingRuns"@) is None,
        },
    ensures
        (common_findings(node, pointer, "trigger"@, file, workflow, scope).len() == 0) == ({
            &&& keeps_state(workflow)
            &&& 1 <= runs <= 100
            &&& match waiting {
                Some(count) => runs + 10 <= count <= (if workflow.kind is Some {
                    200int
                } else {
                    100
                }) && !same_ignoring_case(kind, "Recurrence"@),
                None => true,
            }
        }),
{
    lemma_plain(file, scope);
    lemma_labels();
    lemma_besides_runtimeconfiguration(node);
    lemma_besides_concurrency(runtime);
    lemma_runs_alone(setting);
}

/// The repetitions of an action are clean exactly where they are 1 to 50 and the
/// action is a loop over items.
pub proof fn law_repetitions_are_limited(
    node: &Node,
    kind: Seq<char>,
    runtime: &Node,
    setting: &Node,
    repetitions: u64,
    pointer: Seq<char>,
    file: &Document,
    workflow: &Workflow,
    scope: &ArmScope,
)
    requires
        is_plain(file, scope),
        holds_only(node, seq!["type"@, "inputs"@, "runtimeConfiguration"@]),
        text_field(node, "type"@) == Some(kind),
        field(node, "runtimeConfiguration"@) == Some(*runtime),
        runtime.kind is Object,
        holds_only(runtime, seq!["concurrency"@]),
        field(runtime, "concurrency"@) == Some(*setting),
        setting.kind is Object,
        holds_only(setting, seq!["repetitions"@]),
        field(setting, "repetitions"@) is Some,
        (field(setting, "repetitions"@)->Some_0).kind == Json::Number(Number::PosInt(repetitions)),
    ensures
        (common_findings(node, pointer, "action"@, file, workflow, scope).len() == 0) == (1 <= repetitions <= 50 && same_ignoring_case(kind, "Foreach"@)),
{
    lemma_plain(file, scope);
    lemma_labels();
    lemma_besides_runtimeconfiguration(node);
    lemma_besides_concurrency(runtime);
    lemma_repetitions_alone(setting);
}

/// Runs are never clean on an action.
pub proof fn law_runs_are_for_triggers(
    node: &Node,
    kind: Seq<char>,
    runtime: &Node,
    setting: &Node,
    runs: u64,
    pointer: Seq<char>,
    file: &Document,
    workflow: &Workflow,
    scope: &ArmScope,
)
    requires
        is_plain(file, scope),
        holds_only(node, seq!["type"@, "inputs"@, "runtimeConfiguration"@]),
        text_field(node, "type"@) == Some(kind),
        field(node, "runtimeConfiguration"@) == Some(*runtime),
        runtime.kind is Object,
        holds_only(runtime, seq!["concurrency"@]),
        field(runtime, "concurrency"@) == Some(*setting),
        setting.kind is Object,
        holds_only(setting, seq!["runs"@, "maximumWaitingRuns"@]),
        field(setting, "runs"@) is Some,
        (field(setting, "runs"@)->Some_0).kind == Json::Number(Number::PosInt(runs)),
    ensures
        (common_findings(node, pointer, "action"@, file, workflow, scope).len() == 0) == (false),
{
    lemma_plain(file, scope);
    lemma_labels();
    lemma_besides_runtimeconfiguration(node);
    lemma_besides_concurrency(runtime);
    lemma_runs_alone(setting);
}

/// Repetitions are never clean on a trigger.
pub proof fn law_repetitions_are_for_actions(
    node: &Node,
    kind: Seq<char>,
    runtime: &Node,
    setting: &Node,
    repetitions: u64,
    pointer: Seq<char>,
    file: &Document,
    workflow: &Workflow,
    scope: &ArmScope,
)
    requires
        is_plain(file, scope),
        holds_only(node, seq!["type"@, "inputs"@, "runtimeConfiguration"@]),
        text_field(node, "type"@) == Some(kind),
        field(node, "runtimeConfiguration"@) == Some(*runtime),
        runtime.kind is Object,
        holds_only(runtime, seq!["concurrency"@]),
        field(runtime, "concurrency"@) == Some(*setting),
        setting.kind is Object,
        holds_only(setting, seq!["repetitions"@]),
        field(setting, "repetitions"@) is Some,
        (field(setting, "repetitions"@)->Some_0).kind == Json::Number(Number::PosInt(repetitions)),
    ensures
        (common_findings(node, pointer, "trigger"@, file, workflow, scope).len() == 0) == (false),
{
    lemma_plain(file, scope);
    lemma_labels();
    lemma_besides_runtimeconfiguration(node);
    lemma_besides_concurrency(runtime);
    lemma_repetitions_alone(setting);
}

/// A runtime configuration with this member has nothing else.
proof fn lemma_besides_paginationpolicy(node: &Node)
    requires
        holds_only(node, seq!["paginationPolicy"@]),
    ensures
        field(node, "concurrency"@) is None,
        field(node, "maximumWaitingRuns"@) is None,
        field(node, "contentTransfer"@) is None,
        field(node, "secureData"@) is None,
        field(node, "staticResult"@) is None,
{
    reveal_strlit("paginationPolicy");
    reveal_strlit("concurrency");
    reveal_strlit("maximumWaitingRuns");
    reveal_strlit("contentTransfer");
    reveal_strlit("secureData");
    reveal_strlit("staticResult");
    assert("paginationPolicy"@.len() == 16 && "paginationPolicy"@[0] == 'p');
    assert("concurrency"@.len() == 11 && "concurrency"@[0] == 'c');
    assert("maximumWaitingRuns"@.len() == 18 && "maximumWaitingRuns"@[0] == 'm');
    assert("contentTransfer"@.len() == 15 && "contentTransfer"@[0] == 'c');
    assert("secureData"@.len() == 10 && "secureData"@[0] == 's');
    assert("staticResult"@.len() == 12 && "staticResult"@[0] == 's');
    let keys = seq!["paginationPolicy"@];
    if field(node, "concurrency"@) is Some {
        assert(keys.contains("concurrency"@));
        let i = choose|i: int| 0 <= i < keys.len() && keys[i] == "concurrency"@;
        assert(keys[i] == "concurrency"@);
    }
    if field(node, "maximumWaitingRuns"@) is Some {
        assert(keys.contains("maximumWaitingRuns"@));
        let i = choose|i: int| 0 <= i < keys.len() && keys[i] == "maximumWaitingRuns"@;
        assert(keys[i] == "maximumWaitingRuns"@);
    }
    if field(node, "contentTransfer"@) is Some {
        assert(keys.contains("contentTransfer"@));
        let i = choose|i: int| 0 <= i < keys.len() && keys[i] == "contentTransfer"@;
        assert(keys[i] == "contentTransfer"@);
    }
    if field(node, "secureData"@) is Some {
        assert(keys.contains("secureData"@));
        let i = choose|i: int| 0 <= i < keys.len() && keys[i] == "secureData"@;
        assert(keys[i] == "secureData"@);
    }
    if field(node, "staticResult"@) is Some {
        assert(keys.contains("staticResult"@));
        let i = choose|i: int| 0 <= i < keys.len() && keys[i] == "staticResult"@;
        assert(keys[i] == "staticResult"@);
    }
}

/// A page size is clean exactly where it is not zero.
pub proof fn law_pages_hold_items(
    node: &Node,
    kind: Seq<char>,
    runtime: &Node,
    setting: &Node,
    count: u64,
    pointer: Seq<char>,
    file: &Document,
    workflow: &Workflow,
    scope: &ArmScope,
)
    requires
        is_plain(file, scope),
        holds_only(node, seq!["type"@, "inputs"@, "runtimeConfiguration"@]),
        text_field(node, "type"@) == Some(kind),
        field(node, "runtimeConfiguration"@) == Some(*runtime),
        runtime.kind is Object,
        holds_only(runtime, seq!["paginationPolicy"@]),
        field(runtime, "paginationPolicy"@) == Some(*setting),
        setting.kind is Object,
        field(setting, "minimumItemCount"@) is Some,
        (field(setting, "minimumItemCount"@)->Some_0).kind == Json::Number(Number::PosInt(count)),
    ensures
        (common_findings(node, pointer, "action"@, file, workflow, scope).len() == 0) == (count > 0),
{
    lemma_plain(file, scope);
    lemma_labels();
    lemma_besides_runtimeconfiguration(node);
    lemma_besides_paginationpolicy(runtime);
}

/// A page size is never clean on a trigger.
pub proof fn law_pages_are_for_actions(
    node: &Node,
    kind: Seq<char>,
    runtime: &Node,
    setting: &Node,
    count: u64,
    pointer: Seq<char>,
    file: &Document,
    workflow: &Workflow,
    scope: &ArmScope,
)
    requires
        is_plain(file, scope),
        holds_only(node, seq!["type"@, "inputs"@, "runtimeConfiguration"@]),
        text_field(node, "type"@) == Some(kind),
        field(node, "runtimeConfiguration"@) == Some(*runtime),
        runtime.kind is Object,
        holds_only(runtime, seq!["paginationPolicy"@]),
        field(runtime, "paginationPolicy"@) == Some(*setting),
        setting.kind is Object,
        field(setting, "minimumItemCount"@) is Some,
        (field(setting, "minimumItemCount"@)->Some_0).kind == Json::Number(Number::PosInt(count)),
    ensures
        (common_findings(node, pointer, "trigger"@, file, workflow, scope).len() == 0) == (false),
{
    lemma_plain(file, scope);
    lemma_labels();
    lemma_besides_runtimeconfiguration(node);
    lemma_besides_paginationpolicy(runtime);
}

proof fn lemma_transfer_mode_names(name: Seq<char>)
    ensures
        one_of_ignoring_case(name, transfer_mode_names()) == (same_ignoring_case(name, "Chunked"@)),
{
    let list = transfer_mode_names();
    assert(list[0] == "Chunked"@);
    if one_of_ignoring_case(name, list) {
        let k = choose|k: int| 0 <= k < list.len() && same_ignoring_case(name, #[trigger] list[k]);
        assert(same_ignoring_case(name, list[k]));
    }
}

proof fn lemma_transfer_type_names(name: Seq<char>)
    ensures
        one_of_ignoring_case(name, transfer_type_names()) == (same_ignoring_case(name, "ApiConnection"@) || same_ignoring_case(name, "ApiConnectionWebhook"@) || same_ignoring_case(name, "Http"@) || same_ignoring_case(name, "HttpWebhook"@)),
{
    let list = transfer_type_names();
    assert(list[0] == "ApiConnection"@);
    assert(list[1] == "ApiConnectionWebhook"@);
    assert(list[2] == "Http"@);
    assert(list[3] == "HttpWebhook"@);
    if one_of_ignoring_case(name, list) {
        let k = choose|k: int| 0 <= k < list.len() && same_ignoring_case(name, #[trigger] list[k]);
        assert(same_ignoring_case(name, list[k]));
    }
}

/// A runtime configuration with this member has nothing else.
proof fn lemma_besides_contenttransfer(node: &Node)
    requires
        holds_only(node, seq!["contentTransfer"@]),
    ensures
        field(node, "concurrency"@) is None,
        field(node, "maximumWaitingRuns"@) is None,
        field(node, "paginationPolicy"@) is None,
        field(node, "secureData"@) is None,
        field(node, "staticResult"@) is None,
{
    reveal_strlit("contentTransfer");
    reveal_strlit("concurrency");
    reveal_strlit("maximumWaitingRuns");
    reveal_strlit("paginationPolicy");
    reveal_strlit("secureData");
    reveal_strlit("staticResult");
    assert("contentTransfer"@.len() == 15 && "contentTransfer"@[0] == 'c');
    assert("concurrency"@.len() == 11 && "concurrency"@[0] == 'c');
    assert("maximumWaitingRuns"@.len() == 18 && "maximumWaitingRuns"@[0] == 'm');
    assert("paginationPolicy"@.len() == 16 && "paginationPolicy"@[0] == 'p');
    assert("secureData"@.len() == 10 && "secureData"@[0] == 's');
    assert("staticResult"@.len() == 12 && "staticResult"@[0] == 's');
    let keys = seq!["contentTransfer"@];
    if field(node, "concurrency"@) is Some {
        assert(keys.contains("concurrency"@));
        let i = choose|i: int| 0 <= i < keys.len() && keys[i] == "concurrency"@;
        assert(keys[i] == "concurrency"@);
    }
    if field(node, "maximumWaitingRuns"@) is Some {
        assert(keys.contains("maximumWaitingRuns"@));
        let i = choose|i: int| 0 <= i < keys.len() && keys[i] == "maximumWaitingRuns"@;
        assert(keys[i] == "maximumWaitingRuns"@);
    }
    if field(node, "paginationPolicy"@) is Some {
        assert(keys.contains("paginationPolicy"@));
        let i = choose|i: int| 0 <= i < keys.len() && keys[i] == "paginationPolicy"@;
        assert(keys[i] == "paginationPolicy"@);
    }
    if field(node, "secureData"@) is Some {
        assert(keys.contains("secureData"@));
        let i = choose|i: int| 0 <= i < keys.len() && keys[i] == "secureData"@;
        assert(keys[i] == "secureData"@);
    }
    if field(node, "staticResult"@) is Some {
        assert(keys.contains("staticResult"@));
        let i = choose|i: int| 0 <= i < keys.len() && keys[i] == "staticResult"@;
        assert(keys[i] == "staticResult"@);
    }
}

/// A transfer mode is clean exactly where it is `Chunked`, whatever its case, on an
/// action that calls, in a workflow that keeps state.
pub proof fn law_content_is_transferred_in_chunks(
    node: &Node,
    kind: Seq<char>,
    runtime: &Node,
    setting: &Node,
    mode: Seq<char>,
    pointer: Seq<char>,
    file: &Document,
    workflow: &Workflow,
    scope: &ArmScope,
)
    requires
        is_plain(file, scope),
        holds_only(node, seq!["type"@, "inputs"@, "runtimeConfiguration"@]),
        text_field(node, "type"@) == Some(kind),
        field(node, "runtimeConfiguration"@) == Some(*runtime),
        runtime.kind is Object,
        holds_only(runtime, seq!["contentTransfer"@]),
        field(runtime, "contentTransfer"@) == Some(*setting),
        setting.kind is Object,
        text_field(setting, "transferMode"@) == Some(mode),
        is_unmarked(mode),
    ensures
        (common_findings(node, pointer, "action"@, file, workflow, scope).len() == 0) == (same_ignoring_case(mode, "Chunked"@) && keeps_state(workflow) && (same_ignoring_case(kind, "ApiConnection"@) || same_ignoring_case(kind, "ApiConnectionWebhook"@) || same_ignoring_case(kind, "Http"@) || same_ignoring_case(kind, "HttpWebhook"@))),
{
    lemma_plain(file, scope);
    lemma_labels();
    lemma_besides_runtimeconfiguration(node);
    lemma_besides_contenttransfer(runtime);
    lemma_unmarked_is_literal(mode);
    lemma_transfer_mode_names(mode);
    lemma_transfer_type_names(kind);
}

proof fn lemma_static_result_option_names(name: Seq<char>)
    ensures
        one_of(name, static_result_option_names()) == (name == "Disabled"@ || name == "Enabled"@),
{
    let list = static_result_option_names();
    if one_of(name, list) {
        let k = choose|k: int| 0 <= k < list.len() && list[k] == name;
        assert(list[k] == name);
    }
    assert(list[0] == "Disabled"@);
    assert(list[1] == "Enabled"@);
}

/// A runtime configuration with this member has nothing else.
proof fn lemma_besides_staticresult(node: &Node)
    requires
        holds_only(node, seq!["staticResult"@]),
    ensures
        field(node, "concurrency"@) is None,
        field(node, "maximumWaitingRuns"@) is None,
        field(node, "paginationPolicy"@) is None,
        field(node, "contentTransfer"@) is None,
        field(node, "secureData"@) is None,
{
    reveal_strlit("staticResult");
    reveal_strlit("concurrency");
    reveal_strlit("maximumWaitingRuns");
    reveal_strlit("paginationPolicy");
    reveal_strlit("contentTransfer");
    reveal_strlit("secureData");
    assert("staticResult"@.len() == 12 && "staticResult"@[0] == 's');
    assert("concurrency"@.len() == 11 && "concurrency"@[0] == 'c');
    assert("maximumWaitingRuns"@.len() == 18 && "maximumWaitingRuns"@[0] == 'm');
    assert("paginationPolicy"@.len() == 16 && "paginationPolicy"@[0] == 'p');
    assert("contentTransfer"@.len() == 15 && "contentTransfer"@[0] == 'c');
    assert("secureData"@.len() == 10 && "secureData"@[0] == 's');
    let keys = seq!["staticResult"@];
    if field(node, "concurrency"@) is Some {
        assert(keys.contains("concurrency"@));
        let i = choose|i: int| 0 <= i < keys.len() && keys[i] == "concurrency"@;
        assert(keys[i] == "concurrency"@);
    }
    if field(node, "maximumWaitingRuns"@) is Some {
        assert(keys.contains("maximumWaitingRuns"@));
        let i = choose|i: int| 0 <= i < keys.len() && keys[i] == "maximumWaitingRuns"@;
        assert(keys[i] == "maximumWaitingRuns"@);
    }
    if field(node, "paginationPolicy"@) is Some {
        assert(keys.contains("paginationPolicy"@));
        let i = choose|i: int| 0 <= i < keys.len() && keys[i] == "paginationPolicy"@;
        assert(keys[i] == "paginationPolicy"@);
    }
    if field(node, "contentTransfer"@) is Some {
        assert(keys.contains("contentTransfer"@));
        let i = choose|i: int| 0 <= i < keys.len() && keys[i] == "contentTransfer"@;
        assert(keys[i] == "contentTransfer"@);
    }
    if field(node, "secureData"@) is Some {
        assert(keys.contains("secureData"@));
        let i = choose|i: int| 0 <= i < keys.len() && keys[i] == "secureData"@;
        assert(keys[i] == "secureData"@);
    }
}

/// A static result is clean exactly where the definition declares it and it is
/// enabled or disabled.
pub proof fn law_static_results_are_declared(
    node: &Node,
    kind: Seq<char>,
    runtime: &Node,
    setting: &Node,
    name: Seq<char>,
    option: Seq<char>,
    results: &Node,
    pointer: Seq<char>,
    file: &Document,
    workflow: &Workflow,
    scope: &ArmScope,
)
    requires
        is_plain(file, scope),
        holds_only(node, seq!["type"@, "inputs"@, "runtimeConfiguration"@]),
        text_field(node, "type"@) == Some(kind),
        field(node, "runtimeConfiguration"@) == Some(*runtime),
        runtime.kind is Object,
        holds_only(runtime, seq!["staticResult"@]),
        field(runtime, "staticResult"@) == Some(*setting),
        setting.kind is Object,
        text_field(setting, "name"@) == Some(name),
        text_field(setting, "staticResultOptions"@) == Some(option),
        is_unmarked(option),
        field(workflow.definition, "staticResults"@) == Some(*results),
        field(results, name) is Some ==> !((field(results, name)->Some_0).kind is Null),
    ensures
        (common_findings(node, pointer, "action"@, file, workflow, scope).len() == 0) == ((option == "Disabled"@ || option == "Enabled"@) && field(results, name) is Some),
{
    lemma_plain(file, scope);
    lemma_labels();
    lemma_besides_runtimeconfiguration(node);
    lemma_besides_staticresult(runtime);
    lemma_unmarked_is_literal(option);
    lemma_static_result_option_names(option);
}

proof fn lemma_insecure_input_type_names(name: Seq<char>)
    ensures
        one_of_ignoring_case(name, insecure_input_type_names()) == (same_ignoring_case(name, "AppendToArrayVariable"@) || same_ignoring_case(name, "AppendToStringVariable"@) || same_ignoring_case(name, "DecrementVariable"@) || same_ignoring_case(name, "Foreach"@) || same_ignoring_case(name, "If"@) || same_ignoring_case(name, "IncrementVariable"@) || same_ignoring_case(name, "InitializeVariable"@) || same_ignoring_case(name, "Scope"@) || same_ignoring_case(name, "SetVariable"@) || same_ignoring_case(name, "Switch"@) || same_ignoring_case(name, "Terminate"@) || same_ignoring_case(name, "Until"@)),
{
    let list = insecure_input_type_names();
    assert(list[0] == "AppendToArrayVariable"@);
    assert(list[1] == "AppendToStringVariable"@);
    assert(list[2] == "DecrementVariable"@);
    assert(list[3] == "Foreach"@);
    assert(list[4] == "If"@);
    assert(list[5] == "IncrementVariable"@);
    assert(list[6] == "InitializeVariable"@);
    assert(list[7] == "Scope"@);
    assert(list[8] == "SetVariable"@);
    assert(list[9] == "Switch"@);
    assert(list[10] == "Terminate"@);
    assert(list[11] == "Until"@);
    if one_of_ignoring_case(name, list) {
        let k = choose|k: int| 0 <= k < list.len() && same_ignoring_case(name, #[trigger] list[k]);
        assert(same_ignoring_case(name, list[k]));
    }
}

proof fn lemma_insecure_output_type_names(name: Seq<char>)
    ensures
        one_of_ignoring_case(name, insecure_output_type_names()) == (same_ignoring_case(name, "AppendToArrayVariable"@) || same_ignoring_case(name, "AppendToStringVariable"@) || same_ignoring_case(name, "Compose"@) || same_ignoring_case(name, "DecrementVariable"@) || same_ignoring_case(name, "Foreach"@) || same_ignoring_case(name, "If"@) || same_ignoring_case(name, "IncrementVariable"@) || same_ignoring_case(name, "InitializeVariable"@) || same_ignoring_case(name, "ParseJson"@) || same_ignoring_case(name, "Response"@) || same_ignoring_case(name, "Scope"@) || same_ignoring_case(name, "SetVariable"@) || same_ignoring_case(name, "Switch"@) || same_ignoring_case(name, "Terminate"@) || same_ignoring_case(name, "Until"@) || same_ignoring_case(name, "Wait"@)),
{
    let list = insecure_output_type_names();
    assert(list[0] == "AppendToArrayVariable"@);
    assert(list[1] == "AppendToStringVariable"@);
    assert(list[2] == "Compose"@);
    assert(list[3] == "DecrementVariable"@);
    assert(list[4] == "Foreach"@);
    assert(list[5] == "If"@);
    assert(list[6] == "IncrementVariable"@);
    assert(list[7] == "InitializeVariable"@);
    assert(list[8] == "ParseJson"@);
    assert(list[9] == "Response"@);
    assert(list[10] == "Scope"@);
    assert(list[11] == "SetVariable"@);
    assert(list[12] == "Switch"@);
    assert(list[13] == "Terminate"@);
    assert(list[14] == "Until"@);
    assert(list[15] == "Wait"@);
    if one_of_ignoring_case(name, list) {
        let k = choose|k: int| 0 <= k < list.len() && same_ignoring_case(name, #[trigger] list[k]);
        assert(same_ignoring_case(name, list[k]));
    }
}

proof fn lemma_secure_property_names(name: Seq<char>)
    ensures
        one_of_ignoring_case(name, secure_property_names()) == (same_ignoring_case(name, "inputs"@) || same_ignoring_case(name, "outputs"@)),
{
    let list = secure_property_names();
    assert(list[0] == "inputs"@);
    assert(list[1] == "outputs"@);
    if one_of_ignoring_case(name, list) {
        let k = choose|k: int| 0 <= k < list.len() && same_ignoring_case(name, #[trigger] list[k]);
        assert(same_ignoring_case(name, list[k]));
    }
}

/// A runtime configuration with this member has nothing else.
proof fn lemma_besides_securedata(node: &Node)
    requires
        holds_only(node, seq!["secureData"@]),
    ensures
        field(node, "concurrency"@) is None,
        field(node, "maximumWaitingRuns"@) is None,
        field(node, "paginationPolicy"@) is None,
        field(node, "contentTransfer"@) is None,
        field(node, "staticResult"@) is None,
{
    reveal_strlit("secureData");
    reveal_strlit("concurrency");
    reveal_strlit("maximumWaitingRuns");
    reveal_strlit("paginationPolicy");
    reveal_strlit("contentTransfer");
    reveal_strlit("staticResult");
    assert("secureData"@.len() == 10 && "secureData"@[0] == 's');
    assert("concurrency"@.len() == 11 && "concurrency"@[0] == 'c');
    assert("maximumWaitingRuns"@.len() == 18 && "maximumWaitingRuns"@[0] == 'm');
    assert("paginationPolicy"@.len() == 16 && "paginationPolicy"@[0] == 'p');
    assert("contentTransfer"@.len() == 15 && "contentTransfer"@[0] == 'c');
    assert("staticResult"@.len() == 12 && "staticResult"@[0] == 's');
    let keys = seq!["secureData"@];
    if field(node, "concurrency"@) is Some {
        assert(keys.contains("concurrency"@));
        let i = choose|i: int| 0 <= i < keys.len() && keys[i] == "concurrency"@;
        assert(keys[i] == "concurrency"@);
    }
    if field(node, "maximumWaitingRuns"@) is Some {
        assert(keys.contains("maximumWaitingRuns"@));
        let i = choose|i: int| 0 <= i < keys.len() && keys[i] == "maximumWaitingRuns"@;
        assert(keys[i] == "maximumWaitingRuns"@);
    }
    if field(node, "paginationPolicy"@) is Some {
        assert(keys.contains("paginationPolicy"@));
        let i = choose|i: int| 0 <= i < keys.len() && keys[i] == "paginationPolicy"@;
        assert(keys[i] == "paginationPolicy"@);
    }
    if field(node, "contentTransfer"@) is Some {
        assert(keys.contains("contentTransfer"@));
        let i = choose|i: int| 0 <= i < keys.len() && keys[i] == "contentTransfer"@;
        assert(keys[i] == "contentTransfer"@);
    }
    if field(node, "staticResult"@) is Some {
        assert(keys.contains("staticResult"@));
        let i = choose|i: int| 0 <= i < keys.len() && keys[i] == "staticResult"@;
        assert(keys[i] == "staticResult"@);
    }
}

/// A property to mask is clean exactly where it is the inputs or the outputs, and
/// the type of the action has such a thing to mask.
pub proof fn law_masks_go_by_type(
    node: &Node,
    kind: Seq<char>,
    runtime: &Node,
    setting: &Node,
    items: Vec<Node>,
    property: Seq<char>,
    pointer: Seq<char>,
    file: &Document,
    workflow: &Workflow,
    scope: &ArmScope,
)
    requires
        is_plain(file, scope),
        holds_only(node, seq!["type"@, "inputs"@, "runtimeConfiguration"@]),
        text_field(node, "type"@) == Some(kind),
        field(node, "runtimeConfiguration"@) == Some(*runtime),
        runtime.kind is Object,
        holds_only(runtime, seq!["secureData"@]),
        field(runtime, "secureData"@) == Some(*setting),
        setting.kind is Object,
        field(setting, "properties"@) is Some,
        (field(setting, "properties"@)->Some_0).kind == Json::Array(items),
        items@.len() == 1,
        text_of(&items@[0]) == Some(property),
    ensures
        (common_findings(node, pointer, "action"@, file, workflow, scope).len() == 0) == ((same_ignoring_case(property, "inputs"@) && !(same_ignoring_case(kind, "AppendToArrayVariable"@) || same_ignoring_case(kind, "AppendToStringVariable"@) || same_ignoring_case(kind, "DecrementVariable"@) || same_ignoring_case(kind, "Foreach"@) || same_ignoring_case(kind, "If"@) || same_ignoring_case(kind, "IncrementVariable"@) || same_ignoring_case(kind, "InitializeVariable"@) || same_ignoring_case(kind, "Scope"@) || same_ignoring_case(kind, "SetVariable"@) || same_ignoring_case(kind, "Switch"@) || same_ignoring_case(kind, "Terminate"@) || same_ignoring_case(kind, "Until"@))) || (same_ignoring_case(property, "outputs"@) && !(same_ignoring_case(kind, "AppendToArrayVariable"@) || same_ignoring_case(kind, "AppendToStringVariable"@) || same_ignoring_case(kind, "Compose"@) || same_ignoring_case(kind, "DecrementVariable"@) || same_ignoring_case(kind, "Foreach"@) || same_ignoring_case(kind, "If"@) || same_ignoring_case(kind, "IncrementVariable"@) || same_ignoring_case(kind, "InitializeVariable"@) || same_ignoring_case(kind, "ParseJson"@) || same_ignoring_case(kind, "Response"@) || same_ignoring_case(kind, "Scope"@) || same_ignoring_case(kind, "SetVariable"@) || same_ignoring_case(kind, "Switch"@) || same_ignoring_case(kind, "Terminate"@) || same_ignoring_case(kind, "Until"@) || same_ignoring_case(kind, "Wait"@)))),
{
    lemma_plain(file, scope);
    lemma_labels();
    lemma_besides_runtimeconfiguration(node);
    lemma_besides_securedata(runtime);
    lemma_secure_property_names(property);
    let base = joined(
        joined(joined(pointer, "runtimeConfiguration"@), "secureData"@),
        "properties"@,
    );
    assert(secure_property_findings(items@, 0, base, node, true, "action"@, file).len() == 0);
    assert(secure_property_findings(items@, 1, base, node, true, "action"@, file).len() >= 0);
    assert(!(same_ignoring_case(property, "inputs"@) && same_ignoring_case(property, "outputs"@)))
        by {
        reveal_strlit("inputs");
        reveal_strlit("outputs");
        assert("inputs"@.len() == 6 && "outputs"@.len() == 7);
    }
    lemma_insecure_input_type_names(kind);
    lemma_insecure_output_type_names(kind);
}

/// A property to mask is clean on a trigger exactly where it is the inputs or the
/// outputs, and the trigger is no recurrence.
pub proof fn law_trigger_masks_are_inputs_and_outputs(
    node: &Node,
    kind: Seq<char>,
    runtime: &Node,
    setting: &Node,
    items: Vec<Node>,
    property: Seq<char>,
    pointer: Seq<char>,
    file: &Document,
    workflow: &Workflow,
    scope: &ArmScope,
)
    requires
        is_plain(file, scope),
        holds_only(node, seq!["type"@, "inputs"@, "runtimeConfiguration"@]),
        text_field(node, "type"@) == Some(kind),
        field(node, "runtimeConfiguration"@) == Some(*runtime),
        runtime.kind is Object,
        holds_only(runtime, seq!["secureData"@]),
        field(runtime, "secureData"@) == Some(*setting),
        setting.kind is Object,
        field(setting, "properties"@) is Some,
        (field(setting, "properties"@)->Some_0).kind == Json::Array(items),
        items@.len() == 1,
        text_of(&items@[0]) == Some(property),
    ensures
        (common_findings(node, pointer, "trigger"@, file, workflow, scope).len() == 0) == ((same_ignoring_case(property, "inputs"@) || same_ignoring_case(property, "outputs"@)) && !same_ignoring_case(kind, "Recurrence"@)),
{
    lemma_plain(file, scope);
    lemma_labels();
    lemma_besides_runtimeconfiguration(node);
    lemma_besides_securedata(runtime);
    lemma_secure_property_names(property);
    let base = joined(
        joined(joined(pointer, "runtimeConfiguration"@), "secureData"@),
        "properties"@,
    );
    assert(secure_property_findings(items@, 0, base, node, true, "trigger"@, file).len() == 0);
    assert(secure_property_findings(items@, 1, base, node, true, "trigger"@, file).len() >= 0);
}

} // verus!
