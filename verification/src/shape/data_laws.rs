//! What the actions on data, code and integration accounts are judged by.

use vstd::prelude::*;

use crate::arm::ArmScope;

use crate::json::{field, joined, text_field, Document, Json, Node, Number};
use crate::shape::actions::connectors::access_key_type_names;
use crate::shape::actions::data::{
    expression_inputs_findings, expression_kind_names, has_never_object, is_never_object,
    table_format_names,
};
use crate::shape::actions::integration::{
    artifact_type_names, batch_mode_names, criteria_findings, empty_node_mode_names,
    liquid_kind_names,
};
use crate::shape::common::{common_findings, common_kind_names};
use crate::shape::http::{bounds_of, endpoint_method_names, http_inputs_findings};
use crate::shape::operations::{authored_action_findings, nested_findings};
use crate::shape::plain_laws::{
    holds_only, is_plain, lemma_action_alone, lemma_action_by_type, lemma_action_parts,
    lemma_plain,
};
use crate::shape::recurrence_laws::{is_unmarked, lemma_unmarked_is_literal};
use crate::shape::registry::{typed_action_findings, ActionSpec};
use crate::shape::time::time_unit_names;
use crate::shape::type_laws::lemma_action_types;
use crate::text::{folded, has_suffix, one_of, one_of_ignoring_case, same_ignoring_case};
use crate::workflow::Workflow;

verus! {

/// A member is a text.
pub open spec fn is_text(node: &Node, key: Seq<char>) -> bool {
    text_field(node, key) is Some
}

/// A member is a text, and no expression plays a part in it.
pub open spec fn is_plain_text(node: &Node, key: Seq<char>) -> bool {
    text_field(node, key) is Some && is_unmarked(text_field(node, key)->Some_0)
}

/// A member is a text or a list.
pub open spec fn is_text_or_list(node: &Node, key: Seq<char>) -> bool {
    match field(node, key) {
        Some(value) => value.kind is String || value.kind is Array,
        None => false,
    }
}

/// A member is an object.
pub open spec fn is_object(node: &Node, key: Seq<char>) -> bool {
    match field(node, key) {
        Some(value) => value.kind is Object,
        None => false,
    }
}

/// A member is a whole number.
pub open spec fn is_whole(node: &Node, key: Seq<char>) -> bool {
    match field(node, key) {
        Some(value) => match value.kind {
            Json::Number(Number::PosInt(_)) => true,
            Json::Number(Number::NegInt(_)) => true,
            _ => false,
        },
        None => false,
    }
}

/// A member names a unit of time.
pub open spec fn is_time_unit(node: &Node, key: Seq<char>) -> bool {
    match text_field(node, key) {
        Some(unit) => unit == "Day"@ || unit == "Hour"@ || unit == "Minute"@ || unit == "Month"@
            || unit == "Second"@ || unit == "Week"@ || unit == "Year"@,
        None => false,
    }
}

/// An object names an artifact of an integration account.
pub open spec fn names_artifact(inputs: &Node, artifact: Seq<char>) -> bool {
    match field(inputs, "integrationAccount"@) {
        Some(account) => account.kind is Object && match field(&account, artifact) {
            Some(found) => found.kind is Object && is_text(&found, "name"@),
            None => false,
        },
        None => false,
    }
}

/// An action with these members has nothing else.
proof fn lemma_keys_of_compositions_have_inputs(node: &Node)
    requires
        holds_only(node, seq!["type"@, "inputs"@]),
    ensures
        field(node, "description"@) is None,
        field(node, "operationOptions"@) is None,
        field(node, "runtimeConfiguration"@) is None,
        field(node, "limit"@) is None,
        field(node, "trackedProperties"@) is None,
        field(node, "kind"@) is None,
        field(node, "runAfter"@) is None,
        field(node, "actions"@) is None,
        field(node, "cases"@) is None,
        field(node, "default"@) is None,
        field(node, "else"@) is None,
        field(node, "tools"@) is None,
{
    reveal_strlit("type");
    reveal_strlit("inputs");
    reveal_strlit("description");
    reveal_strlit("operationOptions");
    reveal_strlit("runtimeConfiguration");
    reveal_strlit("limit");
    reveal_strlit("trackedProperties");
    reveal_strlit("kind");
    reveal_strlit("runAfter");
    reveal_strlit("actions");
    reveal_strlit("cases");
    reveal_strlit("default");
    reveal_strlit("else");
    reveal_strlit("tools");
    assert("type"@.len() == 4 && "type"@[0] == 't');
    assert("inputs"@.len() == 6 && "inputs"@[0] == 'i');
    assert("description"@.len() == 11 && "description"@[0] == 'd');
    assert("operationOptions"@.len() == 16 && "operationOptions"@[0] == 'o');
    assert("runtimeConfiguration"@.len() == 20 && "runtimeConfiguration"@[0] == 'r');
    assert("limit"@.len() == 5 && "limit"@[0] == 'l');
    assert("trackedProperties"@.len() == 17 && "trackedProperties"@[0] == 't');
    assert("kind"@.len() == 4 && "kind"@[0] == 'k');
    assert("runAfter"@.len() == 8 && "runAfter"@[0] == 'r');
    assert("actions"@.len() == 7 && "actions"@[0] == 'a');
    assert("cases"@.len() == 5 && "cases"@[0] == 'c');
    assert("default"@.len() == 7 && "default"@[0] == 'd');
    assert("else"@.len() == 4 && "else"@[0] == 'e');
    assert("tools"@.len() == 5 && "tools"@[0] == 't');
    let keys = seq!["type"@, "inputs"@];
    if field(node, "description"@) is Some {
        assert(keys.contains("description"@));
        let i = choose|i: int| 0 <= i < keys.len() && keys[i] == "description"@;
        assert(keys[i] == "description"@);
    }
    if field(node, "operationOptions"@) is Some {
        assert(keys.contains("operationOptions"@));
        let i = choose|i: int| 0 <= i < keys.len() && keys[i] == "operationOptions"@;
        assert(keys[i] == "operationOptions"@);
    }
    if field(node, "runtimeConfiguration"@) is Some {
        assert(keys.contains("runtimeConfiguration"@));
        let i = choose|i: int| 0 <= i < keys.len() && keys[i] == "runtimeConfiguration"@;
        assert(keys[i] == "runtimeConfiguration"@);
    }
    if field(node, "limit"@) is Some {
        assert(keys.contains("limit"@));
        let i = choose|i: int| 0 <= i < keys.len() && keys[i] == "limit"@;
        assert(keys[i] == "limit"@);
    }
    if field(node, "trackedProperties"@) is Some {
        assert(keys.contains("trackedProperties"@));
        let i = choose|i: int| 0 <= i < keys.len() && keys[i] == "trackedProperties"@;
        assert(keys[i] == "trackedProperties"@);
    }
    if field(node, "kind"@) is Some {
        assert(keys.contains("kind"@));
        let i = choose|i: int| 0 <= i < keys.len() && keys[i] == "kind"@;
        assert(keys[i] == "kind"@);
    }
    if field(node, "runAfter"@) is Some {
        assert(keys.contains("runAfter"@));
        let i = choose|i: int| 0 <= i < keys.len() && keys[i] == "runAfter"@;
        assert(keys[i] == "runAfter"@);
    }
    if field(node, "actions"@) is Some {
        assert(keys.contains("actions"@));
        let i = choose|i: int| 0 <= i < keys.len() && keys[i] == "actions"@;
        assert(keys[i] == "actions"@);
    }
    if field(node, "cases"@) is Some {
        assert(keys.contains("cases"@));
        let i = choose|i: int| 0 <= i < keys.len() && keys[i] == "cases"@;
        assert(keys[i] == "cases"@);
    }
    if field(node, "default"@) is Some {
        assert(keys.contains("default"@));
        let i = choose|i: int| 0 <= i < keys.len() && keys[i] == "default"@;
        assert(keys[i] == "default"@);
    }
    if field(node, "else"@) is Some {
        assert(keys.contains("else"@));
        let i = choose|i: int| 0 <= i < keys.len() && keys[i] == "else"@;
        assert(keys[i] == "else"@);
    }
    if field(node, "tools"@) is Some {
        assert(keys.contains("tools"@));
        let i = choose|i: int| 0 <= i < keys.len() && keys[i] == "tools"@;
        assert(keys[i] == "tools"@);
    }
}

/// A `Compose` action is clean exactly where it has inputs.
pub proof fn law_compositions_have_inputs(
    action: &Node,
    kind: Seq<char>,
    pointer: Seq<char>,
    container: Seq<char>,
    file: &Document,
    workflow: &Workflow,
    scope: &ArmScope,
)
    requires
        is_plain(file, scope),
        holds_only(action, seq!["type"@, "inputs"@]),
        text_field(action, "type"@) == Some(kind),
        same_ignoring_case(kind, "Compose"@),
    ensures
        (authored_action_findings(action, pointer, container, file, workflow, scope).len() == 0)
            == (field(action, "inputs"@) is Some),
{
    lemma_plain(file, scope);
    lemma_keys_of_compositions_have_inputs(action);
    lemma_action_types(kind);
    lemma_action_parts(action, pointer, container, file, workflow, scope, kind, ActionSpec::Compose);
    let typed = typed_action_findings(
        ActionSpec::Compose,
        action,
        pointer,
        container,
        kind,
        file,
        workflow,
    );
    let shared = common_findings(action, pointer, "action"@, file, workflow, scope);
    let below = nested_findings(action, pointer, false, Some(kind), file, workflow, scope);
    assert(shared.len() == 0);
    assert(below.len() == 0);
}

/// A `Join` action with a plain separator is clean exactly where it joins a list
/// or a text by a single character.
pub proof fn law_lists_are_joined_by_one_character(
    action: &Node,
    inputs: &Node,
    kind: Seq<char>,
    separator: Seq<char>,
    pointer: Seq<char>,
    container: Seq<char>,
    file: &Document,
    workflow: &Workflow,
    scope: &ArmScope,
)
    requires
        is_plain(file, scope),
        holds_only(action, seq!["type"@, "inputs"@]),
        text_field(action, "type"@) == Some(kind),
        same_ignoring_case(kind, "Join"@),
        field(action, "inputs"@) == Some(*inputs),
        inputs.kind is Object,
        text_field(inputs, "joinWith"@) == Some(separator),
        is_unmarked(separator),
    ensures
        (authored_action_findings(action, pointer, container, file, workflow, scope).len() == 0)
            == (is_text_or_list(inputs, "from"@) && separator.len() == 1),
{
    let declared = field(action, "type"@)->Some_0;
    lemma_plain(file, scope);
    lemma_action_alone(action);
    lemma_action_types(kind);
    lemma_action_by_type(
        action,
        pointer,
        container,
        file,
        workflow,
        scope,
        &declared,
        kind,
        ActionSpec::Join,
    );
    lemma_unmarked_is_literal(separator);
}

/// A `ParseJson` action is clean exactly where it has content and a schema.
pub proof fn law_parsing_asks_for_content_and_schema(
    action: &Node,
    inputs: &Node,
    kind: Seq<char>,
    pointer: Seq<char>,
    container: Seq<char>,
    file: &Document,
    workflow: &Workflow,
    scope: &ArmScope,
)
    requires
        is_plain(file, scope),
        holds_only(action, seq!["type"@, "inputs"@]),
        text_field(action, "type"@) == Some(kind),
        same_ignoring_case(kind, "ParseJson"@),
        field(action, "inputs"@) == Some(*inputs),
        inputs.kind is Object,
    ensures
        (authored_action_findings(action, pointer, container, file, workflow, scope).len() == 0)
            == (field(inputs, "content"@) is Some && is_object(inputs, "schema"@)),
{
    let declared = field(action, "type"@)->Some_0;
    lemma_plain(file, scope);
    lemma_action_alone(action);
    lemma_action_types(kind);
    lemma_action_by_type(
        action,
        pointer,
        container,
        file,
        workflow,
        scope,
        &declared,
        kind,
        ActionSpec::ParseJson,
    );
}

/// A `Query` action is clean exactly where it filters a list or a text by a
/// condition.
pub proof fn law_queries_filter_a_list(
    action: &Node,
    inputs: &Node,
    kind: Seq<char>,
    pointer: Seq<char>,
    container: Seq<char>,
    file: &Document,
    workflow: &Workflow,
    scope: &ArmScope,
)
    requires
        is_plain(file, scope),
        holds_only(action, seq!["type"@, "inputs"@]),
        text_field(action, "type"@) == Some(kind),
        same_ignoring_case(kind, "Query"@),
        field(action, "inputs"@) == Some(*inputs),
        inputs.kind is Object,
    ensures
        (authored_action_findings(action, pointer, container, file, workflow, scope).len() == 0)
            == (is_text_or_list(inputs, "from"@) && is_text(inputs, "where"@)),
{
    let declared = field(action, "type"@)->Some_0;
    lemma_plain(file, scope);
    lemma_action_alone(action);
    lemma_action_types(kind);
    lemma_action_by_type(
        action,
        pointer,
        container,
        file,
        workflow,
        scope,
        &declared,
        kind,
        ActionSpec::Query,
    );
    assert(same_ignoring_case("Query"@, "query"@)) by {
        reveal_strlit("Query");
        reveal_strlit("query");
        assert("Query"@.len() == 5 && "query"@.len() == 5);
        assert(folded("Query"@[0]) == 'q' && folded("query"@[0]) == 'q');
        assert(folded("Query"@[1]) == 'u' && folded("query"@[1]) == 'u');
        assert(folded("Query"@[2]) == 'e' && folded("query"@[2]) == 'e');
        assert(folded("Query"@[3]) == 'r' && folded("query"@[3]) == 'r');
        assert(folded("Query"@[4]) == 'y' && folded("query"@[4]) == 'y');
    }
    assert(!same_ignoring_case("Query"@, "table"@)) by {
        reveal_strlit("Query");
        reveal_strlit("table");
        assert(folded("Query"@[0]) == 'q' && folded("table"@[0]) == 't');
    }
}

/// A `Select` action is clean exactly where it maps a list or a text by a text or
/// by an object that is not empty.
pub proof fn law_selections_map_a_list(
    action: &Node,
    inputs: &Node,
    kind: Seq<char>,
    select: &Node,
    pointer: Seq<char>,
    container: Seq<char>,
    file: &Document,
    workflow: &Workflow,
    scope: &ArmScope,
)
    requires
        is_plain(file, scope),
        holds_only(action, seq!["type"@, "inputs"@]),
        text_field(action, "type"@) == Some(kind),
        same_ignoring_case(kind, "Select"@),
        field(action, "inputs"@) == Some(*inputs),
        inputs.kind is Object,
        field(inputs, "select"@) == Some(*select),
    ensures
        (authored_action_findings(action, pointer, container, file, workflow, scope).len() == 0)
            == (is_text_or_list(inputs, "from"@) && (select.kind is String || (match select.kind {
            Json::Object(members) => members@.len() > 0,
            _ => false,
        }))),
{
    let declared = field(action, "type"@)->Some_0;
    lemma_plain(file, scope);
    lemma_action_alone(action);
    lemma_action_types(kind);
    lemma_action_by_type(
        action,
        pointer,
        container,
        file,
        workflow,
        scope,
        &declared,
        kind,
        ActionSpec::Select,
    );
    assert(!same_ignoring_case("Select"@, "query"@)) by {
        reveal_strlit("Select");
        reveal_strlit("query");
        assert("Select"@.len() == 6 && "query"@.len() == 5);
    }
    assert(!same_ignoring_case("Select"@, "table"@)) by {
        reveal_strlit("Select");
        reveal_strlit("table");
        assert("Select"@.len() == 6 && "table"@.len() == 5);
    }
}

proof fn lemma_table_format_names(name: Seq<char>)
    ensures
        one_of(name, table_format_names()) == (name == "CSV"@ || name == "HTML"@),
{
    let list = table_format_names();
    if one_of(name, list) {
        let k = choose|k: int| 0 <= k < list.len() && list[k] == name;
        assert(list[k] == name);
    }
    assert(list[0] == "CSV"@);
    assert(list[1] == "HTML"@);
}

/// Inputs with these members have nothing else.
proof fn lemma_inputs_of_tables_are_of_two_formats(node: &Node)
    requires
        holds_only(node, seq!["from"@, "format"@]),
    ensures
        field(node, "columns"@) is None,
{
    reveal_strlit("from");
    reveal_strlit("format");
    reveal_strlit("columns");
    assert("from"@.len() == 4 && "from"@[0] == 'f');
    assert("format"@.len() == 6 && "format"@[0] == 'f');
    assert("columns"@.len() == 7 && "columns"@[0] == 'c');
    let keys = seq!["from"@, "format"@];
    if field(node, "columns"@) is Some {
        assert(keys.contains("columns"@));
        let i = choose|i: int| 0 <= i < keys.len() && keys[i] == "columns"@;
        assert(keys[i] == "columns"@);
    }
}

/// A `Table` action without columns is clean exactly where it is of a known
/// format and every row that is written out is an object.
pub proof fn law_tables_are_of_two_formats(
    action: &Node,
    inputs: &Node,
    kind: Seq<char>,
    form: Seq<char>,
    pointer: Seq<char>,
    container: Seq<char>,
    file: &Document,
    workflow: &Workflow,
    scope: &ArmScope,
)
    requires
        is_plain(file, scope),
        holds_only(action, seq!["type"@, "inputs"@]),
        text_field(action, "type"@) == Some(kind),
        same_ignoring_case(kind, "Table"@),
        field(action, "inputs"@) == Some(*inputs),
        inputs.kind is Object,
        holds_only(inputs, seq!["from"@, "format"@]),
        text_field(inputs, "format"@) == Some(form),
        is_unmarked(form),
        match field(inputs, "from"@) {
            Some(value) => match value.kind {
                Json::Array(items) => forall|i: int|
                    0 <= i < items@.len() ==> !((#[trigger] items@[i]).kind is String),
                _ => true,
            },
            None => true,
        },
    ensures
        (authored_action_findings(action, pointer, container, file, workflow, scope).len() == 0)
            == ((form == "CSV"@ || form == "HTML"@) && (match field(inputs, "from"@) {
            Some(value) => match value.kind {
                Json::Array(items) => forall|i: int|
                    0 <= i < items@.len() ==> (#[trigger] items@[i]).kind is Object,
                Json::String(_) => true,
                _ => false,
            },
            None => false,
        })),
{
    let declared = field(action, "type"@)->Some_0;
    lemma_plain(file, scope);
    lemma_action_alone(action);
    lemma_action_types(kind);
    lemma_action_by_type(
        action,
        pointer,
        container,
        file,
        workflow,
        scope,
        &declared,
        kind,
        ActionSpec::Table,
    );
    lemma_inputs_of_tables_are_of_two_formats(inputs);
    lemma_unmarked_is_literal(form);
    lemma_table_format_names(form);
    assert(same_ignoring_case("Table"@, "table"@)) by {
        reveal_strlit("Table");
        reveal_strlit("table");
        assert("Table"@.len() == 5 && "table"@.len() == 5);
        assert(folded("Table"@[0]) == 't' && folded("table"@[0]) == 't');
        assert(folded("Table"@[1]) == 'a' && folded("table"@[1]) == 'a');
        assert(folded("Table"@[2]) == 'b' && folded("table"@[2]) == 'b');
        assert(folded("Table"@[3]) == 'l' && folded("table"@[3]) == 'l');
        assert(folded("Table"@[4]) == 'e' && folded("table"@[4]) == 'e');
    }
    assert(!same_ignoring_case("Table"@, "query"@)) by {
        reveal_strlit("Table");
        reveal_strlit("query");
        assert(folded("Table"@[0]) == 't' && folded("query"@[0]) == 'q');
    }
    if let Some(value) = field(inputs, "from"@) {
        if let Json::Array(items) = value.kind {
            if has_never_object(items@, file) {
                let i = choose|i: int|
                    0 <= i < items@.len() && #[trigger] is_never_object(&items@[i], file);
                assert(!(items@[i].kind is Object));
            } else {
                assert forall|i: int| 0 <= i < items@.len() implies (
                #[trigger] items@[i]).kind is Object by {
                    assert(!is_never_object(&items@[i], file));
                }
            }
        }
    }
}

/// Inputs with these members have nothing else.
proof fn lemma_inputs_of_lookups_name_an_artifact(node: &Node)
    requires
        holds_only(node, seq!["artifactType"@, "artifactName"@]),
    ensures
        field(node, "artifaceName"@) is None,
{
    reveal_strlit("artifactType");
    reveal_strlit("artifactName");
    reveal_strlit("artifaceName");
    assert("artifactType"@.len() == 12 && "artifactType"@[0] == 'a' && "artifactType"@[7] == 't' && "artifactType"@[8] == 'T');
    assert("artifactName"@.len() == 12 && "artifactName"@[0] == 'a' && "artifactName"@[7] == 't' && "artifactName"@[8] == 'N');
    assert("artifaceName"@.len() == 12 && "artifaceName"@[0] == 'a' && "artifaceName"@[7] == 'e');
    let keys = seq!["artifactType"@, "artifactName"@];
    if field(node, "artifaceName"@) is Some {
        assert(keys.contains("artifaceName"@));
        let i = choose|i: int| 0 <= i < keys.len() && keys[i] == "artifaceName"@;
        assert(keys[i] == "artifaceName"@);
    }
}

/// An `IntegrationAccountArtifactLookup` action is clean exactly where it names an
/// artifact of a known type.
pub proof fn law_lookups_name_an_artifact(
    action: &Node,
    inputs: &Node,
    kind: Seq<char>,
    artifact: Seq<char>,
    pointer: Seq<char>,
    container: Seq<char>,
    file: &Document,
    workflow: &Workflow,
    scope: &ArmScope,
)
    requires
        is_plain(file, scope),
        holds_only(action, seq!["type"@, "inputs"@]),
        text_field(action, "type"@) == Some(kind),
        same_ignoring_case(kind, "IntegrationAccountArtifactLookup"@),
        field(action, "inputs"@) == Some(*inputs),
        inputs.kind is Object,
        holds_only(inputs, seq!["artifactType"@, "artifactName"@]),
        text_field(inputs, "artifactType"@) == Some(artifact),
        is_unmarked(artifact),
    ensures
        (authored_action_findings(action, pointer, container, file, workflow, scope).len() == 0)
            == ((artifact == "Agreement"@ || artifact == "Map"@ || artifact == "Partner"@ || artifact == "Schema"@) && is_text(inputs, "artifactName"@)),
{
    let declared = field(action, "type"@)->Some_0;
    lemma_plain(file, scope);
    lemma_action_alone(action);
    lemma_action_types(kind);
    lemma_action_by_type(
        action,
        pointer,
        container,
        file,
        workflow,
        scope,
        &declared,
        kind,
        ActionSpec::IntegrationAccountArtifactLookup,
    );
    lemma_inputs_of_lookups_name_an_artifact(inputs);
    lemma_unmarked_is_literal(artifact);
    lemma_artifact_type_names(artifact);
}

proof fn lemma_artifact_type_names(name: Seq<char>)
    ensures
        one_of(name, artifact_type_names()) == (name == "Agreement"@ || name == "Map"@ || name == "Partner"@ || name == "Schema"@),
{
    let list = artifact_type_names();
    if one_of(name, list) {
        let k = choose|k: int| 0 <= k < list.len() && list[k] == name;
        assert(list[k] == name);
    }
    assert(list[0] == "Agreement"@);
    assert(list[1] == "Map"@);
    assert(list[2] == "Partner"@);
    assert(list[3] == "Schema"@);
}

/// An `XmlValidation` action is clean exactly where it has content and names a
/// schema.
pub proof fn law_validations_name_a_schema(
    action: &Node,
    inputs: &Node,
    kind: Seq<char>,
    pointer: Seq<char>,
    container: Seq<char>,
    file: &Document,
    workflow: &Workflow,
    scope: &ArmScope,
)
    requires
        is_plain(file, scope),
        holds_only(action, seq!["type"@, "inputs"@]),
        text_field(action, "type"@) == Some(kind),
        same_ignoring_case(kind, "XmlValidation"@),
        field(action, "inputs"@) == Some(*inputs),
        inputs.kind is Object,
    ensures
        (authored_action_findings(action, pointer, container, file, workflow, scope).len() == 0)
            == (field(inputs, "content"@) is Some && names_artifact(inputs, "schema"@)),
{
    let declared = field(action, "type"@)->Some_0;
    lemma_plain(file, scope);
    lemma_action_alone(action);
    lemma_action_types(kind);
    lemma_action_by_type(
        action,
        pointer,
        container,
        file,
        workflow,
        scope,
        &declared,
        kind,
        ActionSpec::XmlValidation,
    );
}

/// A `FlatFileDecoding` action is clean exactly where it has content, names a schema and
/// treats empty nodes in a known way.
pub proof fn law_flat_file_decoding_names_a_schema(
    action: &Node,
    inputs: &Node,
    kind: Seq<char>,
    mode: Seq<char>,
    pointer: Seq<char>,
    container: Seq<char>,
    file: &Document,
    workflow: &Workflow,
    scope: &ArmScope,
)
    requires
        is_plain(file, scope),
        holds_only(action, seq!["type"@, "inputs"@]),
        text_field(action, "type"@) == Some(kind),
        same_ignoring_case(kind, "FlatFileDecoding"@),
        field(action, "inputs"@) == Some(*inputs),
        inputs.kind is Object,
        text_field(inputs, "emptyNodeGenerationMode"@) == Some(mode),
        is_unmarked(mode),
    ensures
        (authored_action_findings(action, pointer, container, file, workflow, scope).len() == 0)
            == (field(inputs, "content"@) is Some && names_artifact(inputs, "schema"@) && (mode == "ForcedDisabled"@ || mode == "ForcedEnabled"@ || mode == "HonorSchemaNodeProperty"@)),
{
    let declared = field(action, "type"@)->Some_0;
    lemma_plain(file, scope);
    lemma_action_alone(action);
    lemma_action_types(kind);
    lemma_action_by_type(
        action,
        pointer,
        container,
        file,
        workflow,
        scope,
        &declared,
        kind,
        ActionSpec::FlatFileDecoding,
    );
    lemma_unmarked_is_literal(mode);
    lemma_empty_node_mode_names(mode);
}

/// A `FlatFileEncoding` action is clean exactly where it has content, names a schema and
/// treats empty nodes in a known way.
pub proof fn law_flat_file_encoding_names_a_schema(
    action: &Node,
    inputs: &Node,
    kind: Seq<char>,
    mode: Seq<char>,
    pointer: Seq<char>,
    container: Seq<char>,
    file: &Document,
    workflow: &Workflow,
    scope: &ArmScope,
)
    requires
        is_plain(file, scope),
        holds_only(action, seq!["type"@, "inputs"@]),
        text_field(action, "type"@) == Some(kind),
        same_ignoring_case(kind, "FlatFileEncoding"@),
        field(action, "inputs"@) == Some(*inputs),
        inputs.kind is Object,
        text_field(inputs, "emptyNodeGenerationMode"@) == Some(mode),
        is_unmarked(mode),
    ensures
        (authored_action_findings(action, pointer, container, file, workflow, scope).len() == 0)
            == (field(inputs, "content"@) is Some && names_artifact(inputs, "schema"@) && (mode == "ForcedDisabled"@ || mode == "ForcedEnabled"@ || mode == "HonorSchemaNodeProperty"@)),
{
    let declared = field(action, "type"@)->Some_0;
    lemma_plain(file, scope);
    lemma_action_alone(action);
    lemma_action_types(kind);
    lemma_action_by_type(
        action,
        pointer,
        container,
        file,
        workflow,
        scope,
        &declared,
        kind,
        ActionSpec::FlatFileEncoding,
    );
    lemma_unmarked_is_literal(mode);
    lemma_empty_node_mode_names(mode);
}

proof fn lemma_empty_node_mode_names(name: Seq<char>)
    ensures
        one_of(name, empty_node_mode_names()) == (name == "ForcedDisabled"@ || name == "ForcedEnabled"@ || name == "HonorSchemaNodeProperty"@),
{
    let list = empty_node_mode_names();
    if one_of(name, list) {
        let k = choose|k: int| 0 <= k < list.len() && list[k] == name;
        assert(list[k] == name);
    }
    assert(list[0] == "ForcedDisabled"@);
    assert(list[1] == "ForcedEnabled"@);
    assert(list[2] == "HonorSchemaNodeProperty"@);
}

proof fn lemma_common_kind_names(name: Seq<char>)
    ensures
        one_of(name, common_kind_names()) == (name == "AddToTime"@ || name == "Alert"@ || name == "ApiConnection"@ || name == "AzureMonitorAlert"@ || name == "Button"@ || name == "ConvertTimeZone"@ || name == "CurrentTime"@ || name == "EventGrid"@ || name == "Geofence"@ || name == "GetFutureTime"@ || name == "GetPastTime"@ || name == "Http"@ || name == "JsonToJson"@ || name == "JsonToText"@ || name == "PowerApp"@ || name == "SecurityCenterAlert"@ || name == "SubtractFromTime"@ || name == "XmlToJson"@ || name == "XmlToText"@),
{
    let list = common_kind_names();
    if one_of(name, list) {
        let k = choose|k: int| 0 <= k < list.len() && list[k] == name;
        assert(list[k] == name);
    }
    assert(list[0] == "AddToTime"@);
    assert(list[1] == "Alert"@);
    assert(list[2] == "ApiConnection"@);
    assert(list[3] == "AzureMonitorAlert"@);
    assert(list[4] == "Button"@);
    assert(list[5] == "ConvertTimeZone"@);
    assert(list[6] == "CurrentTime"@);
    assert(list[7] == "EventGrid"@);
    assert(list[8] == "Geofence"@);
    assert(list[9] == "GetFutureTime"@);
    assert(list[10] == "GetPastTime"@);
    assert(list[11] == "Http"@);
    assert(list[12] == "JsonToJson"@);
    assert(list[13] == "JsonToText"@);
    assert(list[14] == "PowerApp"@);
    assert(list[15] == "SecurityCenterAlert"@);
    assert(list[16] == "SubtractFromTime"@);
    assert(list[17] == "XmlToJson"@);
    assert(list[18] == "XmlToText"@);
}

proof fn lemma_liquid_kind_names(name: Seq<char>)
    ensures
        one_of(name, liquid_kind_names()) == (name == "JsonToJson"@ || name == "JsonToText"@ || name == "XmlToJson"@ || name == "XmlToText"@),
{
    let list = liquid_kind_names();
    if one_of(name, list) {
        let k = choose|k: int| 0 <= k < list.len() && list[k] == name;
        assert(list[k] == name);
    }
    assert(list[0] == "JsonToJson"@);
    assert(list[1] == "JsonToText"@);
    assert(list[2] == "XmlToJson"@);
    assert(list[3] == "XmlToText"@);
}

proof fn lemma_expression_kind_names(name: Seq<char>)
    ensures
        one_of(name, expression_kind_names()) == (name == "AddToTime"@ || name == "ConvertTimeZone"@ || name == "CurrentTime"@ || name == "GetFutureTime"@ || name == "GetPastTime"@ || name == "SubtractFromTime"@),
{
    let list = expression_kind_names();
    if one_of(name, list) {
        let k = choose|k: int| 0 <= k < list.len() && list[k] == name;
        assert(list[k] == name);
    }
    assert(list[0] == "AddToTime"@);
    assert(list[1] == "ConvertTimeZone"@);
    assert(list[2] == "CurrentTime"@);
    assert(list[3] == "GetFutureTime"@);
    assert(list[4] == "GetPastTime"@);
    assert(list[5] == "SubtractFromTime"@);
}

/// An action with these members has nothing else.
proof fn lemma_keys_of_transformations_are_of_four_kinds(node: &Node)
    requires
        holds_only(node, seq!["type"@, "kind"@, "inputs"@]),
    ensures
        field(node, "description"@) is None,
        field(node, "operationOptions"@) is None,
        field(node, "runtimeConfiguration"@) is None,
        field(node, "limit"@) is None,
        field(node, "trackedProperties"@) is None,
        field(node, "runAfter"@) is None,
        field(node, "actions"@) is None,
        field(node, "cases"@) is None,
        field(node, "default"@) is None,
        field(node, "else"@) is None,
        field(node, "tools"@) is None,
{
    reveal_strlit("type");
    reveal_strlit("kind");
    reveal_strlit("inputs");
    reveal_strlit("description");
    reveal_strlit("operationOptions");
    reveal_strlit("runtimeConfiguration");
    reveal_strlit("limit");
    reveal_strlit("trackedProperties");
    reveal_strlit("runAfter");
    reveal_strlit("actions");
    reveal_strlit("cases");
    reveal_strlit("default");
    reveal_strlit("else");
    reveal_strlit("tools");
    assert("type"@.len() == 4 && "type"@[0] == 't');
    assert("kind"@.len() == 4 && "kind"@[0] == 'k');
    assert("inputs"@.len() == 6 && "inputs"@[0] == 'i');
    assert("description"@.len() == 11 && "description"@[0] == 'd');
    assert("operationOptions"@.len() == 16 && "operationOptions"@[0] == 'o');
    assert("runtimeConfiguration"@.len() == 20 && "runtimeConfiguration"@[0] == 'r');
    assert("limit"@.len() == 5 && "limit"@[0] == 'l');
    assert("trackedProperties"@.len() == 17 && "trackedProperties"@[0] == 't');
    assert("runAfter"@.len() == 8 && "runAfter"@[0] == 'r');
    assert("actions"@.len() == 7 && "actions"@[0] == 'a');
    assert("cases"@.len() == 5 && "cases"@[0] == 'c');
    assert("default"@.len() == 7 && "default"@[0] == 'd');
    assert("else"@.len() == 4 && "else"@[0] == 'e');
    assert("tools"@.len() == 5 && "tools"@[0] == 't');
    let keys = seq!["type"@, "kind"@, "inputs"@];
    if field(node, "description"@) is Some {
        assert(keys.contains("description"@));
        let i = choose|i: int| 0 <= i < keys.len() && keys[i] == "description"@;
        assert(keys[i] == "description"@);
    }
    if field(node, "operationOptions"@) is Some {
        assert(keys.contains("operationOptions"@));
        let i = choose|i: int| 0 <= i < keys.len() && keys[i] == "operationOptions"@;
        assert(keys[i] == "operationOptions"@);
    }
    if field(node, "runtimeConfiguration"@) is Some {
        assert(keys.contains("runtimeConfiguration"@));
        let i = choose|i: int| 0 <= i < keys.len() && keys[i] == "runtimeConfiguration"@;
        assert(keys[i] == "runtimeConfiguration"@);
    }
    if field(node, "limit"@) is Some {
        assert(keys.contains("limit"@));
        let i = choose|i: int| 0 <= i < keys.len() && keys[i] == "limit"@;
        assert(keys[i] == "limit"@);
    }
    if field(node, "trackedProperties"@) is Some {
        assert(keys.contains("trackedProperties"@));
        let i = choose|i: int| 0 <= i < keys.len() && keys[i] == "trackedProperties"@;
        assert(keys[i] == "trackedProperties"@);
    }
    if field(node, "runAfter"@) is Some {
        assert(keys.contains("runAfter"@));
        let i = choose|i: int| 0 <= i < keys.len() && keys[i] == "runAfter"@;
        assert(keys[i] == "runAfter"@);
    }
    if field(node, "actions"@) is Some {
        assert(keys.contains("actions"@));
        let i = choose|i: int| 0 <= i < keys.len() && keys[i] == "actions"@;
        assert(keys[i] == "actions"@);
    }
    if field(node, "cases"@) is Some {
        assert(keys.contains("cases"@));
        let i = choose|i: int| 0 <= i < keys.len() && keys[i] == "cases"@;
        assert(keys[i] == "cases"@);
    }
    if field(node, "default"@) is Some {
        assert(keys.contains("default"@));
        let i = choose|i: int| 0 <= i < keys.len() && keys[i] == "default"@;
        assert(keys[i] == "default"@);
    }
    if field(node, "else"@) is Some {
        assert(keys.contains("else"@));
        let i = choose|i: int| 0 <= i < keys.len() && keys[i] == "else"@;
        assert(keys[i] == "else"@);
    }
    if field(node, "tools"@) is Some {
        assert(keys.contains("tools"@));
        let i = choose|i: int| 0 <= i < keys.len() && keys[i] == "tools"@;
        assert(keys[i] == "tools"@);
    }
}

/// A `Liquid` action is clean exactly where it is of one of the four kinds, has
/// content and names a map.
pub proof fn law_transformations_are_of_four_kinds(
    action: &Node,
    kind: Seq<char>,
    inputs: &Node,
    form: Seq<char>,
    pointer: Seq<char>,
    container: Seq<char>,
    file: &Document,
    workflow: &Workflow,
    scope: &ArmScope,
)
    requires
        is_plain(file, scope),
        holds_only(action, seq!["type"@, "kind"@, "inputs"@]),
        text_field(action, "type"@) == Some(kind),
        same_ignoring_case(kind, "Liquid"@),
        text_field(action, "kind"@) == Some(form),
        field(action, "inputs"@) == Some(*inputs),
        inputs.kind is Object,
    ensures
        (authored_action_findings(action, pointer, container, file, workflow, scope).len() == 0)
            == ((form == "JsonToJson"@ || form == "JsonToText"@ || form == "XmlToJson"@ || form == "XmlToText"@) && field(inputs, "content"@) is Some && names_artifact(inputs, "map"@)),
{
    lemma_plain(file, scope);
    lemma_keys_of_transformations_are_of_four_kinds(action);
    lemma_action_types(kind);
    lemma_action_parts(action, pointer, container, file, workflow, scope, kind, ActionSpec::Liquid);
    let typed = typed_action_findings(
        ActionSpec::Liquid,
        action,
        pointer,
        container,
        kind,
        file,
        workflow,
    );
    let shared = common_findings(action, pointer, "action"@, file, workflow, scope);
    let below = nested_findings(action, pointer, false, Some(kind), file, workflow, scope);
    lemma_common_kind_names(form);
    lemma_liquid_kind_names(form);
    reveal_strlit("Response");
    reveal_strlit("http");
    reveal_strlit("JsonToJson");
    reveal_strlit("JsonToText");
    reveal_strlit("XmlToJson");
    reveal_strlit("XmlToText");
    assert("Response"@.len() == 8 && "Response"@[0] == 'R');
    assert("http"@.len() == 4 && "http"@[0] == 'h');
    assert("JsonToJson"@.len() == 10 && "JsonToJson"@[0] == 'J' && "JsonToJson"@[6] == 'J');
    assert("JsonToText"@.len() == 10 && "JsonToText"@[0] == 'J' && "JsonToText"@[6] == 'T');
    assert("XmlToJson"@.len() == 9 && "XmlToJson"@[0] == 'X' && "XmlToJson"@[5] == 'J');
    assert("XmlToText"@.len() == 9 && "XmlToText"@[0] == 'X' && "XmlToText"@[5] == 'T');
    assert((shared.len() == 0) ==> (below.len() == 0));
}

proof fn lemma_time_unit_names(name: Seq<char>)
    ensures
        one_of(name, time_unit_names()) == (name == "Day"@ || name == "Hour"@ || name == "Minute"@ || name == "Month"@ || name == "Second"@ || name == "Week"@ || name == "Year"@),
{
    let list = time_unit_names();
    if one_of(name, list) {
        let k = choose|k: int| 0 <= k < list.len() && list[k] == name;
        assert(list[k] == name);
    }
    assert(list[0] == "Day"@);
    assert(list[1] == "Hour"@);
    assert(list[2] == "Minute"@);
    assert(list[3] == "Month"@);
    assert(list[4] == "Second"@);
    assert(list[5] == "Week"@);
    assert(list[6] == "Year"@);
}

proof fn lemma_kind_addtotime()
    ensures
        same_ignoring_case("AddToTime"@, "addtotime"@),
        !same_ignoring_case("AddToTime"@, "subtractfromtime"@),
        !same_ignoring_case("AddToTime"@, "converttimezone"@),
        !same_ignoring_case("AddToTime"@, "getfuturetime"@),
        !same_ignoring_case("AddToTime"@, "getpasttime"@),
{
    assert(same_ignoring_case("AddToTime"@, "addtotime"@)) by {
        reveal_strlit("AddToTime");
        reveal_strlit("addtotime");
        assert("AddToTime"@.len() == 9 && "addtotime"@.len() == 9);
        assert(folded("AddToTime"@[0]) == 'a' && folded("addtotime"@[0]) == 'a');
        assert(folded("AddToTime"@[1]) == 'd' && folded("addtotime"@[1]) == 'd');
        assert(folded("AddToTime"@[2]) == 'd' && folded("addtotime"@[2]) == 'd');
        assert(folded("AddToTime"@[3]) == 't' && folded("addtotime"@[3]) == 't');
        assert(folded("AddToTime"@[4]) == 'o' && folded("addtotime"@[4]) == 'o');
        assert(folded("AddToTime"@[5]) == 't' && folded("addtotime"@[5]) == 't');
        assert(folded("AddToTime"@[6]) == 'i' && folded("addtotime"@[6]) == 'i');
        assert(folded("AddToTime"@[7]) == 'm' && folded("addtotime"@[7]) == 'm');
        assert(folded("AddToTime"@[8]) == 'e' && folded("addtotime"@[8]) == 'e');
    }
    assert(!same_ignoring_case("AddToTime"@, "subtractfromtime"@)) by {
        reveal_strlit("AddToTime");
        reveal_strlit("subtractfromtime");
        assert("AddToTime"@.len() == 9 && "subtractfromtime"@.len() == 16);
    }
    assert(!same_ignoring_case("AddToTime"@, "converttimezone"@)) by {
        reveal_strlit("AddToTime");
        reveal_strlit("converttimezone");
        assert("AddToTime"@.len() == 9 && "converttimezone"@.len() == 15);
    }
    assert(!same_ignoring_case("AddToTime"@, "getfuturetime"@)) by {
        reveal_strlit("AddToTime");
        reveal_strlit("getfuturetime");
        assert("AddToTime"@.len() == 9 && "getfuturetime"@.len() == 13);
    }
    assert(!same_ignoring_case("AddToTime"@, "getpasttime"@)) by {
        reveal_strlit("AddToTime");
        reveal_strlit("getpasttime");
        assert("AddToTime"@.len() == 9 && "getpasttime"@.len() == 11);
    }
}

proof fn lemma_kind_converttimezone()
    ensures
        !same_ignoring_case("ConvertTimeZone"@, "addtotime"@),
        !same_ignoring_case("ConvertTimeZone"@, "subtractfromtime"@),
        same_ignoring_case("ConvertTimeZone"@, "converttimezone"@),
        !same_ignoring_case("ConvertTimeZone"@, "getfuturetime"@),
        !same_ignoring_case("ConvertTimeZone"@, "getpasttime"@),
{
    assert(!same_ignoring_case("ConvertTimeZone"@, "addtotime"@)) by {
        reveal_strlit("ConvertTimeZone");
        reveal_strlit("addtotime");
        assert("ConvertTimeZone"@.len() == 15 && "addtotime"@.len() == 9);
    }
    assert(!same_ignoring_case("ConvertTimeZone"@, "subtractfromtime"@)) by {
        reveal_strlit("ConvertTimeZone");
        reveal_strlit("subtractfromtime");
        assert("ConvertTimeZone"@.len() == 15 && "subtractfromtime"@.len() == 16);
    }
    assert(same_ignoring_case("ConvertTimeZone"@, "converttimezone"@)) by {
        reveal_strlit("ConvertTimeZone");
        reveal_strlit("converttimezone");
        assert("ConvertTimeZone"@.len() == 15 && "converttimezone"@.len() == 15);
        assert(folded("ConvertTimeZone"@[0]) == 'c' && folded("converttimezone"@[0]) == 'c');
        assert(folded("ConvertTimeZone"@[1]) == 'o' && folded("converttimezone"@[1]) == 'o');
        assert(folded("ConvertTimeZone"@[2]) == 'n' && folded("converttimezone"@[2]) == 'n');
        assert(folded("ConvertTimeZone"@[3]) == 'v' && folded("converttimezone"@[3]) == 'v');
        assert(folded("ConvertTimeZone"@[4]) == 'e' && folded("converttimezone"@[4]) == 'e');
        assert(folded("ConvertTimeZone"@[5]) == 'r' && folded("converttimezone"@[5]) == 'r');
        assert(folded("ConvertTimeZone"@[6]) == 't' && folded("converttimezone"@[6]) == 't');
        assert(folded("ConvertTimeZone"@[7]) == 't' && folded("converttimezone"@[7]) == 't');
        assert(folded("ConvertTimeZone"@[8]) == 'i' && folded("converttimezone"@[8]) == 'i');
        assert(folded("ConvertTimeZone"@[9]) == 'm' && folded("converttimezone"@[9]) == 'm');
        assert(folded("ConvertTimeZone"@[10]) == 'e' && folded("converttimezone"@[10]) == 'e');
        assert(folded("ConvertTimeZone"@[11]) == 'z' && folded("converttimezone"@[11]) == 'z');
        assert(folded("ConvertTimeZone"@[12]) == 'o' && folded("converttimezone"@[12]) == 'o');
        assert(folded("ConvertTimeZone"@[13]) == 'n' && folded("converttimezone"@[13]) == 'n');
        assert(folded("ConvertTimeZone"@[14]) == 'e' && folded("converttimezone"@[14]) == 'e');
    }
    assert(!same_ignoring_case("ConvertTimeZone"@, "getfuturetime"@)) by {
        reveal_strlit("ConvertTimeZone");
        reveal_strlit("getfuturetime");
        assert("ConvertTimeZone"@.len() == 15 && "getfuturetime"@.len() == 13);
    }
    assert(!same_ignoring_case("ConvertTimeZone"@, "getpasttime"@)) by {
        reveal_strlit("ConvertTimeZone");
        reveal_strlit("getpasttime");
        assert("ConvertTimeZone"@.len() == 15 && "getpasttime"@.len() == 11);
    }
}

proof fn lemma_kind_currenttime()
    ensures
        !same_ignoring_case("CurrentTime"@, "addtotime"@),
        !same_ignoring_case("CurrentTime"@, "subtractfromtime"@),
        !same_ignoring_case("CurrentTime"@, "converttimezone"@),
        !same_ignoring_case("CurrentTime"@, "getfuturetime"@),
        !same_ignoring_case("CurrentTime"@, "getpasttime"@),
{
    assert(!same_ignoring_case("CurrentTime"@, "addtotime"@)) by {
        reveal_strlit("CurrentTime");
        reveal_strlit("addtotime");
        assert("CurrentTime"@.len() == 11 && "addtotime"@.len() == 9);
    }
    assert(!same_ignoring_case("CurrentTime"@, "subtractfromtime"@)) by {
        reveal_strlit("CurrentTime");
        reveal_strlit("subtractfromtime");
        assert("CurrentTime"@.len() == 11 && "subtractfromtime"@.len() == 16);
    }
    assert(!same_ignoring_case("CurrentTime"@, "converttimezone"@)) by {
        reveal_strlit("CurrentTime");
        reveal_strlit("converttimezone");
        assert("CurrentTime"@.len() == 11 && "converttimezone"@.len() == 15);
    }
    assert(!same_ignoring_case("CurrentTime"@, "getfuturetime"@)) by {
        reveal_strlit("CurrentTime");
        reveal_strlit("getfuturetime");
        assert("CurrentTime"@.len() == 11 && "getfuturetime"@.len() == 13);
    }
    assert(!same_ignoring_case("CurrentTime"@, "getpasttime"@)) by {
        reveal_strlit("CurrentTime");
        reveal_strlit("getpasttime");
        assert(folded("CurrentTime"@[0]) == 'c' && folded("getpasttime"@[0]) == 'g');
    }
}

proof fn lemma_kind_getfuturetime()
    ensures
        !same_ignoring_case("GetFutureTime"@, "addtotime"@),
        !same_ignoring_case("GetFutureTime"@, "subtractfromtime"@),
        !same_ignoring_case("GetFutureTime"@, "converttimezone"@),
        same_ignoring_case("GetFutureTime"@, "getfuturetime"@),
        !same_ignoring_case("GetFutureTime"@, "getpasttime"@),
{
    assert(!same_ignoring_case("GetFutureTime"@, "addtotime"@)) by {
        reveal_strlit("GetFutureTime");
        reveal_strlit("addtotime");
        assert("GetFutureTime"@.len() == 13 && "addtotime"@.len() == 9);
    }
    assert(!same_ignoring_case("GetFutureTime"@, "subtractfromtime"@)) by {
        reveal_strlit("GetFutureTime");
        reveal_strlit("subtractfromtime");
        assert("GetFutureTime"@.len() == 13 && "subtractfromtime"@.len() == 16);
    }
    assert(!same_ignoring_case("GetFutureTime"@, "converttimezone"@)) by {
        reveal_strlit("GetFutureTime");
        reveal_strlit("converttimezone");
        assert("GetFutureTime"@.len() == 13 && "converttimezone"@.len() == 15);
    }
    assert(same_ignoring_case("GetFutureTime"@, "getfuturetime"@)) by {
        reveal_strlit("GetFutureTime");
        reveal_strlit("getfuturetime");
        assert("GetFutureTime"@.len() == 13 && "getfuturetime"@.len() == 13);
        assert(folded("GetFutureTime"@[0]) == 'g' && folded("getfuturetime"@[0]) == 'g');
        assert(folded("GetFutureTime"@[1]) == 'e' && folded("getfuturetime"@[1]) == 'e');
        assert(folded("GetFutureTime"@[2]) == 't' && folded("getfuturetime"@[2]) == 't');
        assert(folded("GetFutureTime"@[3]) == 'f' && folded("getfuturetime"@[3]) == 'f');
        assert(folded("GetFutureTime"@[4]) == 'u' && folded("getfuturetime"@[4]) == 'u');
        assert(folded("GetFutureTime"@[5]) == 't' && folded("getfuturetime"@[5]) == 't');
        assert(folded("GetFutureTime"@[6]) == 'u' && folded("getfuturetime"@[6]) == 'u');
        assert(folded("GetFutureTime"@[7]) == 'r' && folded("getfuturetime"@[7]) == 'r');
        assert(folded("GetFutureTime"@[8]) == 'e' && folded("getfuturetime"@[8]) == 'e');
        assert(folded("GetFutureTime"@[9]) == 't' && folded("getfuturetime"@[9]) == 't');
        assert(folded("GetFutureTime"@[10]) == 'i' && folded("getfuturetime"@[10]) == 'i');
        assert(folded("GetFutureTime"@[11]) == 'm' && folded("getfuturetime"@[11]) == 'm');
        assert(folded("GetFutureTime"@[12]) == 'e' && folded("getfuturetime"@[12]) == 'e');
    }
    assert(!same_ignoring_case("GetFutureTime"@, "getpasttime"@)) by {
        reveal_strlit("GetFutureTime");
        reveal_strlit("getpasttime");
        assert("GetFutureTime"@.len() == 13 && "getpasttime"@.len() == 11);
    }
}

proof fn lemma_kind_getpasttime()
    ensures
        !same_ignoring_case("GetPastTime"@, "addtotime"@),
        !same_ignoring_case("GetPastTime"@, "subtractfromtime"@),
        !same_ignoring_case("GetPastTime"@, "converttimezone"@),
        !same_ignoring_case("GetPastTime"@, "getfuturetime"@),
        same_ignoring_case("GetPastTime"@, "getpasttime"@),
{
    assert(!same_ignoring_case("GetPastTime"@, "addtotime"@)) by {
        reveal_strlit("GetPastTime");
        reveal_strlit("addtotime");
        assert("GetPastTime"@.len() == 11 && "addtotime"@.len() == 9);
    }
    assert(!same_ignoring_case("GetPastTime"@, "subtractfromtime"@)) by {
        reveal_strlit("GetPastTime");
        reveal_strlit("subtractfromtime");
        assert("GetPastTime"@.len() == 11 && "subtractfromtime"@.len() == 16);
    }
    assert(!same_ignoring_case("GetPastTime"@, "converttimezone"@)) by {
        reveal_strlit("GetPastTime");
        reveal_strlit("converttimezone");
        assert("GetPastTime"@.len() == 11 && "converttimezone"@.len() == 15);
    }
    assert(!same_ignoring_case("GetPastTime"@, "getfuturetime"@)) by {
        reveal_strlit("GetPastTime");
        reveal_strlit("getfuturetime");
        assert("GetPastTime"@.len() == 11 && "getfuturetime"@.len() == 13);
    }
    assert(same_ignoring_case("GetPastTime"@, "getpasttime"@)) by {
        reveal_strlit("GetPastTime");
        reveal_strlit("getpasttime");
        assert("GetPastTime"@.len() == 11 && "getpasttime"@.len() == 11);
        assert(folded("GetPastTime"@[0]) == 'g' && folded("getpasttime"@[0]) == 'g');
        assert(folded("GetPastTime"@[1]) == 'e' && folded("getpasttime"@[1]) == 'e');
        assert(folded("GetPastTime"@[2]) == 't' && folded("getpasttime"@[2]) == 't');
        assert(folded("GetPastTime"@[3]) == 'p' && folded("getpasttime"@[3]) == 'p');
        assert(folded("GetPastTime"@[4]) == 'a' && folded("getpasttime"@[4]) == 'a');
        assert(folded("GetPastTime"@[5]) == 's' && folded("getpasttime"@[5]) == 's');
        assert(folded("GetPastTime"@[6]) == 't' && folded("getpasttime"@[6]) == 't');
        assert(folded("GetPastTime"@[7]) == 't' && folded("getpasttime"@[7]) == 't');
        assert(folded("GetPastTime"@[8]) == 'i' && folded("getpasttime"@[8]) == 'i');
        assert(folded("GetPastTime"@[9]) == 'm' && folded("getpasttime"@[9]) == 'm');
        assert(folded("GetPastTime"@[10]) == 'e' && folded("getpasttime"@[10]) == 'e');
    }
}

proof fn lemma_kind_subtractfromtime()
    ensures
        !same_ignoring_case("SubtractFromTime"@, "addtotime"@),
        same_ignoring_case("SubtractFromTime"@, "subtractfromtime"@),
        !same_ignoring_case("SubtractFromTime"@, "converttimezone"@),
        !same_ignoring_case("SubtractFromTime"@, "getfuturetime"@),
        !same_ignoring_case("SubtractFromTime"@, "getpasttime"@),
{
    assert(!same_ignoring_case("SubtractFromTime"@, "addtotime"@)) by {
        reveal_strlit("SubtractFromTime");
        reveal_strlit("addtotime");
        assert("SubtractFromTime"@.len() == 16 && "addtotime"@.len() == 9);
    }
    assert(same_ignoring_case("SubtractFromTime"@, "subtractfromtime"@)) by {
        reveal_strlit("SubtractFromTime");
        reveal_strlit("subtractfromtime");
        assert("SubtractFromTime"@.len() == 16 && "subtractfromtime"@.len() == 16);
        assert(folded("SubtractFromTime"@[0]) == 's' && folded("subtractfromtime"@[0]) == 's');
        assert(folded("SubtractFromTime"@[1]) == 'u' && folded("subtractfromtime"@[1]) == 'u');
        assert(folded("SubtractFromTime"@[2]) == 'b' && folded("subtractfromtime"@[2]) == 'b');
        assert(folded("SubtractFromTime"@[3]) == 't' && folded("subtractfromtime"@[3]) == 't');
        assert(folded("SubtractFromTime"@[4]) == 'r' && folded("subtractfromtime"@[4]) == 'r');
        assert(folded("SubtractFromTime"@[5]) == 'a' && folded("subtractfromtime"@[5]) == 'a');
        assert(folded("SubtractFromTime"@[6]) == 'c' && folded("subtractfromtime"@[6]) == 'c');
        assert(folded("SubtractFromTime"@[7]) == 't' && folded("subtractfromtime"@[7]) == 't');
        assert(folded("SubtractFromTime"@[8]) == 'f' && folded("subtractfromtime"@[8]) == 'f');
        assert(folded("SubtractFromTime"@[9]) == 'r' && folded("subtractfromtime"@[9]) == 'r');
        assert(folded("SubtractFromTime"@[10]) == 'o' && folded("subtractfromtime"@[10]) == 'o');
        assert(folded("SubtractFromTime"@[11]) == 'm' && folded("subtractfromtime"@[11]) == 'm');
        assert(folded("SubtractFromTime"@[12]) == 't' && folded("subtractfromtime"@[12]) == 't');
        assert(folded("SubtractFromTime"@[13]) == 'i' && folded("subtractfromtime"@[13]) == 'i');
        assert(folded("SubtractFromTime"@[14]) == 'm' && folded("subtractfromtime"@[14]) == 'm');
        assert(folded("SubtractFromTime"@[15]) == 'e' && folded("subtractfromtime"@[15]) == 'e');
    }
    assert(!same_ignoring_case("SubtractFromTime"@, "converttimezone"@)) by {
        reveal_strlit("SubtractFromTime");
        reveal_strlit("converttimezone");
        assert("SubtractFromTime"@.len() == 16 && "converttimezone"@.len() == 15);
    }
    assert(!same_ignoring_case("SubtractFromTime"@, "getfuturetime"@)) by {
        reveal_strlit("SubtractFromTime");
        reveal_strlit("getfuturetime");
        assert("SubtractFromTime"@.len() == 16 && "getfuturetime"@.len() == 13);
    }
    assert(!same_ignoring_case("SubtractFromTime"@, "getpasttime"@)) by {
        reveal_strlit("SubtractFromTime");
        reveal_strlit("getpasttime");
        assert("SubtractFromTime"@.len() == 16 && "getpasttime"@.len() == 11);
    }
}

/// An action with these members has nothing else.
proof fn lemma_keys_of_times_are_computed_by_kind(node: &Node)
    requires
        holds_only(node, seq!["type"@, "kind"@, "inputs"@]),
    ensures
        field(node, "description"@) is None,
        field(node, "operationOptions"@) is None,
        field(node, "runtimeConfiguration"@) is None,
        field(node, "limit"@) is None,
        field(node, "trackedProperties"@) is None,
        field(node, "runAfter"@) is None,
        field(node, "actions"@) is None,
        field(node, "cases"@) is None,
        field(node, "default"@) is None,
        field(node, "else"@) is None,
        field(node, "tools"@) is None,
{
    reveal_strlit("type");
    reveal_strlit("kind");
    reveal_strlit("inputs");
    reveal_strlit("description");
    reveal_strlit("operationOptions");
    reveal_strlit("runtimeConfiguration");
    reveal_strlit("limit");
    reveal_strlit("trackedProperties");
    reveal_strlit("runAfter");
    reveal_strlit("actions");
    reveal_strlit("cases");
    reveal_strlit("default");
    reveal_strlit("else");
    reveal_strlit("tools");
    assert("type"@.len() == 4 && "type"@[0] == 't');
    assert("kind"@.len() == 4 && "kind"@[0] == 'k');
    assert("inputs"@.len() == 6 && "inputs"@[0] == 'i');
    assert("description"@.len() == 11 && "description"@[0] == 'd');
    assert("operationOptions"@.len() == 16 && "operationOptions"@[0] == 'o');
    assert("runtimeConfiguration"@.len() == 20 && "runtimeConfiguration"@[0] == 'r');
    assert("limit"@.len() == 5 && "limit"@[0] == 'l');
    assert("trackedProperties"@.len() == 17 && "trackedProperties"@[0] == 't');
    assert("runAfter"@.len() == 8 && "runAfter"@[0] == 'r');
    assert("actions"@.len() == 7 && "actions"@[0] == 'a');
    assert("cases"@.len() == 5 && "cases"@[0] == 'c');
    assert("default"@.len() == 7 && "default"@[0] == 'd');
    assert("else"@.len() == 4 && "else"@[0] == 'e');
    assert("tools"@.len() == 5 && "tools"@[0] == 't');
    let keys = seq!["type"@, "kind"@, "inputs"@];
    if field(node, "description"@) is Some {
        assert(keys.contains("description"@));
        let i = choose|i: int| 0 <= i < keys.len() && keys[i] == "description"@;
        assert(keys[i] == "description"@);
    }
    if field(node, "operationOptions"@) is Some {
        assert(keys.contains("operationOptions"@));
        let i = choose|i: int| 0 <= i < keys.len() && keys[i] == "operationOptions"@;
        assert(keys[i] == "operationOptions"@);
    }
    if field(node, "runtimeConfiguration"@) is Some {
        assert(keys.contains("runtimeConfiguration"@));
        let i = choose|i: int| 0 <= i < keys.len() && keys[i] == "runtimeConfiguration"@;
        assert(keys[i] == "runtimeConfiguration"@);
    }
    if field(node, "limit"@) is Some {
        assert(keys.contains("limit"@));
        let i = choose|i: int| 0 <= i < keys.len() && keys[i] == "limit"@;
        assert(keys[i] == "limit"@);
    }
    if field(node, "trackedProperties"@) is Some {
        assert(keys.contains("trackedProperties"@));
        let i = choose|i: int| 0 <= i < keys.len() && keys[i] == "trackedProperties"@;
        assert(keys[i] == "trackedProperties"@);
    }
    if field(node, "runAfter"@) is Some {
        assert(keys.contains("runAfter"@));
        let i = choose|i: int| 0 <= i < keys.len() && keys[i] == "runAfter"@;
        assert(keys[i] == "runAfter"@);
    }
    if field(node, "actions"@) is Some {
        assert(keys.contains("actions"@));
        let i = choose|i: int| 0 <= i < keys.len() && keys[i] == "actions"@;
        assert(keys[i] == "actions"@);
    }
    if field(node, "cases"@) is Some {
        assert(keys.contains("cases"@));
        let i = choose|i: int| 0 <= i < keys.len() && keys[i] == "cases"@;
        assert(keys[i] == "cases"@);
    }
    if field(node, "default"@) is Some {
        assert(keys.contains("default"@));
        let i = choose|i: int| 0 <= i < keys.len() && keys[i] == "default"@;
        assert(keys[i] == "default"@);
    }
    if field(node, "else"@) is Some {
        assert(keys.contains("else"@));
        let i = choose|i: int| 0 <= i < keys.len() && keys[i] == "else"@;
        assert(keys[i] == "else"@);
    }
    if field(node, "tools"@) is Some {
        assert(keys.contains("tools"@));
        let i = choose|i: int| 0 <= i < keys.len() && keys[i] == "tools"@;
        assert(keys[i] == "tools"@);
    }
}

/// An `Expression` action is clean exactly where it is of a known kind and has
/// the inputs of that kind.
pub proof fn law_times_are_computed_by_kind(
    action: &Node,
    kind: Seq<char>,
    inputs: &Node,
    form: Seq<char>,
    pointer: Seq<char>,
    container: Seq<char>,
    file: &Document,
    workflow: &Workflow,
    scope: &ArmScope,
)
    requires
        is_plain(file, scope),
        holds_only(action, seq!["type"@, "kind"@, "inputs"@]),
        text_field(action, "type"@) == Some(kind),
        same_ignoring_case(kind, "Expression"@),
        text_field(action, "kind"@) == Some(form),
        field(action, "inputs"@) == Some(*inputs),
        inputs.kind is Object,
        is_text(inputs, "timeUnit"@) ==> is_plain_text(inputs, "timeUnit"@),
    ensures
        (authored_action_findings(action, pointer, container, file, workflow, scope).len() == 0)
            == ({
            ||| (form == "AddToTime"@ || form == "SubtractFromTime"@) && is_text(
                inputs,
                "baseTime"@,
            ) && is_whole(inputs, "interval"@) && is_time_unit(inputs, "timeUnit"@)
            ||| form == "ConvertTimeZone"@ && is_text(inputs, "baseTime"@) && is_text(
                inputs,
                "sourceTimeZone"@,
            ) && is_text(inputs, "destinationTimeZone"@)
            ||| form == "CurrentTime"@
            ||| (form == "GetFutureTime"@ || form == "GetPastTime"@) && is_whole(
                inputs,
                "interval"@,
            ) && is_time_unit(inputs, "timeUnit"@)
        }),
{
    lemma_plain(file, scope);
    lemma_keys_of_times_are_computed_by_kind(action);
    lemma_action_types(kind);
    lemma_action_parts(action, pointer, container, file, workflow, scope, kind, ActionSpec::Expression);
    let typed = typed_action_findings(
        ActionSpec::Expression,
        action,
        pointer,
        container,
        kind,
        file,
        workflow,
    );
    let shared = common_findings(action, pointer, "action"@, file, workflow, scope);
    let below = nested_findings(action, pointer, false, Some(kind), file, workflow, scope);
    lemma_common_kind_names(form);
    lemma_expression_kind_names(form);
    lemma_kind_addtotime();
    lemma_kind_converttimezone();
    lemma_kind_currenttime();
    lemma_kind_getfuturetime();
    lemma_kind_getpasttime();
    lemma_kind_subtractfromtime();
    if let Some(unit) = text_field(inputs, "timeUnit"@) {
        lemma_unmarked_is_literal(unit);
        lemma_time_unit_names(unit);
    }
    reveal_strlit("AddToTime");
    reveal_strlit("ConvertTimeZone");
    reveal_strlit("CurrentTime");
    reveal_strlit("GetFutureTime");
    reveal_strlit("GetPastTime");
    reveal_strlit("SubtractFromTime");
    reveal_strlit("Response");
    reveal_strlit("http");
    assert("AddToTime"@.len() == 9 && "AddToTime"@[0] == 'A');
    assert("ConvertTimeZone"@.len() == 15 && "ConvertTimeZone"@[0] == 'C');
    assert("CurrentTime"@.len() == 11 && "CurrentTime"@[0] == 'C');
    assert("GetFutureTime"@.len() == 13 && "GetFutureTime"@[0] == 'G');
    assert("GetPastTime"@.len() == 11 && "GetPastTime"@[0] == 'G');
    assert("SubtractFromTime"@.len() == 16 && "SubtractFromTime"@[0] == 'S');
    assert("Response"@.len() == 8 && "Response"@[0] == 'R');
    assert("http"@.len() == 4 && "http"@[0] == 'h');
    assert(below.len() == 0);
    assert(one_of(form, expression_kind_names()) ==> shared.len() == 0);
    if one_of(form, expression_kind_names()) {
        let found = expression_inputs_findings(inputs, joined(pointer, "inputs"@), form, file);
        assert(typed =~= found);
    }
}

/// Inputs with these members have nothing else.
proof fn lemma_inputs_of_scripts_are_for_standard_workflows(node: &Node)
    requires
        holds_only(node, seq!["codeFile"@]),
    ensures
        field(node, "CodeFile"@) is None,
{
    reveal_strlit("codeFile");
    reveal_strlit("CodeFile");
    assert("codeFile"@.len() == 8 && "codeFile"@[0] == 'c');
    assert("CodeFile"@.len() == 8 && "CodeFile"@[0] == 'C');
    let keys = seq!["codeFile"@];
    if field(node, "CodeFile"@) is Some {
        assert(keys.contains("CodeFile"@));
        let i = choose|i: int| 0 <= i < keys.len() && keys[i] == "CodeFile"@;
        assert(keys[i] == "CodeFile"@);
    }
}

/// A `PowershellCode` action is clean exactly where the workflow is a Standard one
/// outside of a template and a code file is named.
pub proof fn law_scripts_are_for_standard_workflows(
    action: &Node,
    inputs: &Node,
    kind: Seq<char>,
    pointer: Seq<char>,
    container: Seq<char>,
    file: &Document,
    workflow: &Workflow,
    scope: &ArmScope,
)
    requires
        is_plain(file, scope),
        holds_only(action, seq!["type"@, "inputs"@]),
        text_field(action, "type"@) == Some(kind),
        same_ignoring_case(kind, "PowershellCode"@),
        field(action, "inputs"@) == Some(*inputs),
        inputs.kind is Object,
        holds_only(inputs, seq!["codeFile"@]),
        field(inputs, "codeFile"@) is Some ==> is_text(inputs, "codeFile"@),
    ensures
        (authored_action_findings(action, pointer, container, file, workflow, scope).len() == 0)
            == (workflow.kind is Some && !has_suffix(workflow.definition_pointer@, "/properties/definition"@) && field(inputs, "codeFile"@) is Some),
{
    let declared = field(action, "type"@)->Some_0;
    lemma_plain(file, scope);
    lemma_action_alone(action);
    lemma_action_types(kind);
    lemma_action_by_type(
        action,
        pointer,
        container,
        file,
        workflow,
        scope,
        &declared,
        kind,
        ActionSpec::PowershellCode,
    );
    lemma_inputs_of_scripts_are_for_standard_workflows(inputs);
}

/// Inputs with these members have nothing else.
proof fn lemma_inputs_of_batches_are_sent_to_a_trigger(node: &Node)
    requires
        holds_only(node, seq!["host"@, "batchName"@, "content"@]),
    ensures
        field(node, "partitionName"@) is None,
        field(node, "messageId"@) is None,
{
    reveal_strlit("host");
    reveal_strlit("batchName");
    reveal_strlit("content");
    reveal_strlit("partitionName");
    reveal_strlit("messageId");
    assert("host"@.len() == 4 && "host"@[0] == 'h');
    assert("batchName"@.len() == 9 && "batchName"@[0] == 'b');
    assert("content"@.len() == 7 && "content"@[0] == 'c');
    assert("partitionName"@.len() == 13 && "partitionName"@[0] == 'p');
    assert("messageId"@.len() == 9 && "messageId"@[0] == 'm');
    let keys = seq!["host"@, "batchName"@, "content"@];
    if field(node, "partitionName"@) is Some {
        assert(keys.contains("partitionName"@));
        let i = choose|i: int| 0 <= i < keys.len() && keys[i] == "partitionName"@;
        assert(keys[i] == "partitionName"@);
    }
    if field(node, "messageId"@) is Some {
        assert(keys.contains("messageId"@));
        let i = choose|i: int| 0 <= i < keys.len() && keys[i] == "messageId"@;
        assert(keys[i] == "messageId"@);
    }
}

/// A `SendToBatch` action is clean exactly where it names a batch, a trigger and a
/// workflow and has content.
pub proof fn law_batches_are_sent_to_a_trigger(
    action: &Node,
    inputs: &Node,
    kind: Seq<char>,
    pointer: Seq<char>,
    container: Seq<char>,
    file: &Document,
    workflow: &Workflow,
    scope: &ArmScope,
)
    requires
        is_plain(file, scope),
        holds_only(action, seq!["type"@, "inputs"@]),
        text_field(action, "type"@) == Some(kind),
        same_ignoring_case(kind, "SendToBatch"@),
        field(action, "inputs"@) == Some(*inputs),
        inputs.kind is Object,
        holds_only(inputs, seq!["host"@, "batchName"@, "content"@]),
    ensures
        (authored_action_findings(action, pointer, container, file, workflow, scope).len() == 0)
            == (is_text(inputs, "batchName"@) && field(inputs, "content"@) is Some && (match field(
            inputs,
            "host"@,
        ) {
            Some(host) => host.kind is Object && is_text(&host, "triggerName"@) && (match field(
                &host,
                "workflow"@,
            ) {
                Some(target) => target.kind is Object && is_text(&target, "id"@),
                None => false,
            }),
            None => false,
        })),
{
    let declared = field(action, "type"@)->Some_0;
    lemma_plain(file, scope);
    lemma_action_alone(action);
    lemma_action_types(kind);
    lemma_action_by_type(
        action,
        pointer,
        container,
        file,
        workflow,
        scope,
        &declared,
        kind,
        ActionSpec::SendToBatch,
    );
    lemma_inputs_of_batches_are_sent_to_a_trigger(inputs);
}

proof fn lemma_batch_mode_names(name: Seq<char>)
    ensures
        one_of(name, batch_mode_names()) == (name == "Inline"@ || name == "IntegrationAccount"@),
{
    let list = batch_mode_names();
    if one_of(name, list) {
        let k = choose|k: int| 0 <= k < list.len() && list[k] == name;
        assert(list[k] == name);
    }
    assert(list[0] == "Inline"@);
    assert(list[1] == "IntegrationAccount"@);
}

/// Criteria with these members have nothing else.
proof fn lemma_criteria_alone(node: &Node)
    requires
        holds_only(node, seq!["messageCount"@, "batchSize"@]),
    ensures
        field(node, "recurrence"@) is None,
{
    reveal_strlit("messageCount");
    reveal_strlit("batchSize");
    reveal_strlit("recurrence");
    assert("messageCount"@.len() == 12 && "messageCount"@[0] == 'm');
    assert("batchSize"@.len() == 9 && "batchSize"@[0] == 'b');
    assert("recurrence"@.len() == 10 && "recurrence"@[0] == 'r');
    let keys = seq!["messageCount"@, "batchSize"@];
    if field(node, "recurrence"@) is Some {
        assert(keys.contains("recurrence"@));
        let i = choose|i: int| 0 <= i < keys.len() && keys[i] == "recurrence"@;
        assert(keys[i] == "recurrence"@);
    }
}

/// Inputs with these members have nothing else.
proof fn lemma_inputs_of_batches_are_released_within_limits(node: &Node)
    requires
        holds_only(node, seq!["mode"@, "releaseCriteria"@]),
    ensures
        field(node, "host"@) is None,
        field(node, "batchName"@) is None,
        field(node, "batchGroupName"@) is None,
        field(node, "configurations"@) is None,
        field(node, "content"@) is None,
{
    reveal_strlit("mode");
    reveal_strlit("releaseCriteria");
    reveal_strlit("host");
    reveal_strlit("batchName");
    reveal_strlit("batchGroupName");
    reveal_strlit("configurations");
    reveal_strlit("content");
    assert("mode"@.len() == 4 && "mode"@[0] == 'm');
    assert("releaseCriteria"@.len() == 15 && "releaseCriteria"@[0] == 'r');
    assert("host"@.len() == 4 && "host"@[0] == 'h');
    assert("batchName"@.len() == 9 && "batchName"@[0] == 'b');
    assert("batchGroupName"@.len() == 14 && "batchGroupName"@[0] == 'b');
    assert("configurations"@.len() == 14 && "configurations"@[0] == 'c');
    assert("content"@.len() == 7 && "content"@[0] == 'c');
    let keys = seq!["mode"@, "releaseCriteria"@];
    if field(node, "host"@) is Some {
        assert(keys.contains("host"@));
        let i = choose|i: int| 0 <= i < keys.len() && keys[i] == "host"@;
        assert(keys[i] == "host"@);
    }
    if field(node, "batchName"@) is Some {
        assert(keys.contains("batchName"@));
        let i = choose|i: int| 0 <= i < keys.len() && keys[i] == "batchName"@;
        assert(keys[i] == "batchName"@);
    }
    if field(node, "batchGroupName"@) is Some {
        assert(keys.contains("batchGroupName"@));
        let i = choose|i: int| 0 <= i < keys.len() && keys[i] == "batchGroupName"@;
        assert(keys[i] == "batchGroupName"@);
    }
    if field(node, "configurations"@) is Some {
        assert(keys.contains("configurations"@));
        let i = choose|i: int| 0 <= i < keys.len() && keys[i] == "configurations"@;
        assert(keys[i] == "configurations"@);
    }
    if field(node, "content"@) is Some {
        assert(keys.contains("content"@));
        let i = choose|i: int| 0 <= i < keys.len() && keys[i] == "content"@;
        assert(keys[i] == "content"@);
    }
}

/// A `Batch` action with release criteria is clean exactly where its mode is known
/// and it is released after 1 to 8000 messages and 1 to 83886080 bytes.
pub proof fn law_batches_are_released_within_limits(
    action: &Node,
    inputs: &Node,
    kind: Seq<char>,
    criteria: &Node,
    mode: Seq<char>,
    messages: u64,
    bytes: u64,
    pointer: Seq<char>,
    container: Seq<char>,
    file: &Document,
    workflow: &Workflow,
    scope: &ArmScope,
)
    requires
        is_plain(file, scope),
        holds_only(action, seq!["type"@, "inputs"@]),
        text_field(action, "type"@) == Some(kind),
        same_ignoring_case(kind, "Batch"@),
        field(action, "inputs"@) == Some(*inputs),
        inputs.kind is Object,
        holds_only(inputs, seq!["mode"@, "releaseCriteria"@]),
        text_field(inputs, "mode"@) == Some(mode),
        is_unmarked(mode),
        field(inputs, "releaseCriteria"@) == Some(*criteria),
        criteria.kind is Object,
        holds_only(criteria, seq!["messageCount"@, "batchSize"@]),
        field(criteria, "messageCount"@) is Some,
        (field(criteria, "messageCount"@)->Some_0).kind == Json::Number(Number::PosInt(messages)),
        field(criteria, "batchSize"@) is Some,
        (field(criteria, "batchSize"@)->Some_0).kind == Json::Number(Number::PosInt(bytes)),
        messages <= i64::MAX,
        bytes <= i64::MAX,
    ensures
        (authored_action_findings(action, pointer, container, file, workflow, scope).len() == 0)
            == ((mode == "Inline"@ || mode == "IntegrationAccount"@) && 1 <= messages <= 8000 && 1 <= bytes <= 83886080),
{
    let declared = field(action, "type"@)->Some_0;
    lemma_plain(file, scope);
    lemma_action_alone(action);
    lemma_action_types(kind);
    lemma_action_by_type(
        action,
        pointer,
        container,
        file,
        workflow,
        scope,
        &declared,
        kind,
        ActionSpec::Batch,
    );
    lemma_inputs_of_batches_are_released_within_limits(inputs);
    lemma_unmarked_is_literal(mode);
    lemma_batch_mode_names(mode);
    lemma_criteria_alone(criteria);
    let at = joined(joined(pointer, "inputs"@), "releaseCriteria"@);
    assert((criteria_findings(criteria, at, file).len() == 0) == (1 <= messages <= 8000 && 1 <= bytes
        <= 83886080));
}

/// Inputs with these members have nothing else.
proof fn lemma_inputs_of_calls_name_a_workflow(node: &Node)
    requires
        holds_only(node, seq!["host"@]),
    ensures
        field(node, "headers"@) is None,
        field(node, "queries"@) is None,
        field(node, "cookie"@) is None,
        field(node, "operationOptions"@) is None,
        field(node, "authentication"@) is None,
        field(node, "retryPolicy"@) is None,
{
    reveal_strlit("host");
    reveal_strlit("headers");
    reveal_strlit("queries");
    reveal_strlit("cookie");
    reveal_strlit("operationOptions");
    reveal_strlit("authentication");
    reveal_strlit("retryPolicy");
    assert("host"@.len() == 4 && "host"@[0] == 'h');
    assert("headers"@.len() == 7 && "headers"@[0] == 'h');
    assert("queries"@.len() == 7 && "queries"@[0] == 'q');
    assert("cookie"@.len() == 6 && "cookie"@[0] == 'c');
    assert("operationOptions"@.len() == 16 && "operationOptions"@[0] == 'o');
    assert("authentication"@.len() == 14 && "authentication"@[0] == 'a');
    assert("retryPolicy"@.len() == 11 && "retryPolicy"@[0] == 'r');
    let keys = seq!["host"@];
    if field(node, "headers"@) is Some {
        assert(keys.contains("headers"@));
        let i = choose|i: int| 0 <= i < keys.len() && keys[i] == "headers"@;
        assert(keys[i] == "headers"@);
    }
    if field(node, "queries"@) is Some {
        assert(keys.contains("queries"@));
        let i = choose|i: int| 0 <= i < keys.len() && keys[i] == "queries"@;
        assert(keys[i] == "queries"@);
    }
    if field(node, "cookie"@) is Some {
        assert(keys.contains("cookie"@));
        let i = choose|i: int| 0 <= i < keys.len() && keys[i] == "cookie"@;
        assert(keys[i] == "cookie"@);
    }
    if field(node, "operationOptions"@) is Some {
        assert(keys.contains("operationOptions"@));
        let i = choose|i: int| 0 <= i < keys.len() && keys[i] == "operationOptions"@;
        assert(keys[i] == "operationOptions"@);
    }
    if field(node, "authentication"@) is Some {
        assert(keys.contains("authentication"@));
        let i = choose|i: int| 0 <= i < keys.len() && keys[i] == "authentication"@;
        assert(keys[i] == "authentication"@);
    }
    if field(node, "retryPolicy"@) is Some {
        assert(keys.contains("retryPolicy"@));
        let i = choose|i: int| 0 <= i < keys.len() && keys[i] == "retryPolicy"@;
        assert(keys[i] == "retryPolicy"@);
    }
}

/// A `Workflow` action is clean exactly where its host names a trigger and a
/// workflow.
pub proof fn law_calls_name_a_workflow(
    action: &Node,
    inputs: &Node,
    kind: Seq<char>,
    host: &Node,
    pointer: Seq<char>,
    container: Seq<char>,
    file: &Document,
    workflow: &Workflow,
    scope: &ArmScope,
)
    requires
        is_plain(file, scope),
        holds_only(action, seq!["type"@, "inputs"@]),
        text_field(action, "type"@) == Some(kind),
        same_ignoring_case(kind, "Workflow"@),
        field(action, "inputs"@) == Some(*inputs),
        inputs.kind is Object,
        holds_only(inputs, seq!["host"@]),
        field(inputs, "host"@) == Some(*host),
        field(host, "id"@) is None || is_text(host, "id"@),
    ensures
        (authored_action_findings(action, pointer, container, file, workflow, scope).len() == 0)
            == (host.kind is Object && is_text(host, "triggerName"@) && (match field(
            host,
            "workflow"@,
        ) {
            Some(target) => target.kind is Object && is_text(&target, "id"@),
            None => is_text(host, "id"@),
        })),
{
    let declared = field(action, "type"@)->Some_0;
    lemma_plain(file, scope);
    lemma_action_alone(action);
    lemma_action_types(kind);
    lemma_action_by_type(
        action,
        pointer,
        container,
        file,
        workflow,
        scope,
        &declared,
        kind,
        ActionSpec::Workflow,
    );
    lemma_inputs_of_calls_name_a_workflow(inputs);
}

proof fn lemma_methods_in_any_case(name: Seq<char>)
    ensures
        one_of_ignoring_case(name, endpoint_method_names()) == (same_ignoring_case(name, "DELETE"@) || same_ignoring_case(name, "GET"@) || same_ignoring_case(name, "PATCH"@) || same_ignoring_case(name, "POST"@) || same_ignoring_case(name, "PUT"@)),
{
    let list = endpoint_method_names();
    assert(list[0] == "DELETE"@);
    assert(list[1] == "GET"@);
    assert(list[2] == "PATCH"@);
    assert(list[3] == "POST"@);
    assert(list[4] == "PUT"@);
    if one_of_ignoring_case(name, list) {
        let k = choose|k: int| 0 <= k < list.len() && same_ignoring_case(name, #[trigger] list[k]);
        assert(same_ignoring_case(name, list[k]));
    }
}

proof fn lemma_endpoint_method_names(name: Seq<char>)
    ensures
        one_of(name, endpoint_method_names()) == (name == "DELETE"@ || name == "GET"@ || name == "PATCH"@ || name == "POST"@ || name == "PUT"@),
{
    let list = endpoint_method_names();
    if one_of(name, list) {
        let k = choose|k: int| 0 <= k < list.len() && list[k] == name;
        assert(list[k] == name);
    }
    assert(list[0] == "DELETE"@);
    assert(list[1] == "GET"@);
    assert(list[2] == "PATCH"@);
    assert(list[3] == "POST"@);
    assert(list[4] == "PUT"@);
}

proof fn lemma_access_key_type_names(name: Seq<char>)
    ensures
        one_of(name, access_key_type_names()) == (name == "Primary"@ || name == "Secondary"@),
{
    let list = access_key_type_names();
    if one_of(name, list) {
        let k = choose|k: int| 0 <= k < list.len() && list[k] == name;
        assert(list[k] == name);
    }
    assert(list[0] == "Primary"@);
    assert(list[1] == "Secondary"@);
}

/// Inputs with these members have nothing else.
proof fn lemma_inputs_of_connections_are_named(node: &Node)
    requires
        holds_only(node, seq!["host"@, "method"@, "path"@, "accessKeyType"@]),
    ensures
        field(node, "headers"@) is None,
        field(node, "queries"@) is None,
        field(node, "cookie"@) is None,
        field(node, "operationOptions"@) is None,
        field(node, "authentication"@) is None,
        field(node, "retryPolicy"@) is None,
{
    reveal_strlit("host");
    reveal_strlit("method");
    reveal_strlit("path");
    reveal_strlit("accessKeyType");
    reveal_strlit("headers");
    reveal_strlit("queries");
    reveal_strlit("cookie");
    reveal_strlit("operationOptions");
    reveal_strlit("authentication");
    reveal_strlit("retryPolicy");
    assert("host"@.len() == 4 && "host"@[0] == 'h');
    assert("method"@.len() == 6 && "method"@[0] == 'm');
    assert("path"@.len() == 4 && "path"@[0] == 'p');
    assert("accessKeyType"@.len() == 13 && "accessKeyType"@[0] == 'a');
    assert("headers"@.len() == 7 && "headers"@[0] == 'h');
    assert("queries"@.len() == 7 && "queries"@[0] == 'q');
    assert("cookie"@.len() == 6 && "cookie"@[0] == 'c');
    assert("operationOptions"@.len() == 16 && "operationOptions"@[0] == 'o');
    assert("authentication"@.len() == 14 && "authentication"@[0] == 'a');
    assert("retryPolicy"@.len() == 11 && "retryPolicy"@[0] == 'r');
    let keys = seq!["host"@, "method"@, "path"@, "accessKeyType"@];
    if field(node, "headers"@) is Some {
        assert(keys.contains("headers"@));
        let i = choose|i: int| 0 <= i < keys.len() && keys[i] == "headers"@;
        assert(keys[i] == "headers"@);
    }
    if field(node, "queries"@) is Some {
        assert(keys.contains("queries"@));
        let i = choose|i: int| 0 <= i < keys.len() && keys[i] == "queries"@;
        assert(keys[i] == "queries"@);
    }
    if field(node, "cookie"@) is Some {
        assert(keys.contains("cookie"@));
        let i = choose|i: int| 0 <= i < keys.len() && keys[i] == "cookie"@;
        assert(keys[i] == "cookie"@);
    }
    if field(node, "operationOptions"@) is Some {
        assert(keys.contains("operationOptions"@));
        let i = choose|i: int| 0 <= i < keys.len() && keys[i] == "operationOptions"@;
        assert(keys[i] == "operationOptions"@);
    }
    if field(node, "authentication"@) is Some {
        assert(keys.contains("authentication"@));
        let i = choose|i: int| 0 <= i < keys.len() && keys[i] == "authentication"@;
        assert(keys[i] == "authentication"@);
    }
    if field(node, "retryPolicy"@) is Some {
        assert(keys.contains("retryPolicy"@));
        let i = choose|i: int| 0 <= i < keys.len() && keys[i] == "retryPolicy"@;
        assert(keys[i] == "retryPolicy"@);
    }
}

/// An `ApiConnection` action is clean exactly where it calls a path of a named
/// connection by a known method, whatever its case, with a known key.
pub proof fn law_connections_are_named(
    action: &Node,
    inputs: &Node,
    kind: Seq<char>,
    host: &Node,
    connection: &Node,
    method: Seq<char>,
    key: Seq<char>,
    pointer: Seq<char>,
    container: Seq<char>,
    file: &Document,
    workflow: &Workflow,
    scope: &ArmScope,
)
    requires
        is_plain(file, scope),
        holds_only(action, seq!["type"@, "inputs"@]),
        text_field(action, "type"@) == Some(kind),
        same_ignoring_case(kind, "ApiConnection"@),
        field(action, "inputs"@) == Some(*inputs),
        inputs.kind is Object,
        holds_only(inputs, seq!["host"@, "method"@, "path"@, "accessKeyType"@]),
        field(inputs, "host"@) == Some(*host),
        host.kind is Object,
        field(host, "connection"@) == Some(*connection),
        field(connection, "name"@) is Some ==> is_text(connection, "name"@),
        field(connection, "referenceName"@) is Some ==> is_text(connection, "referenceName"@),
        field(connection, "id"@) is Some ==> is_text(connection, "id"@),
        text_field(inputs, "method"@) == Some(method),
        is_unmarked(method),
        text_field(inputs, "accessKeyType"@) == Some(key),
        is_unmarked(key),
    ensures
        (authored_action_findings(action, pointer, container, file, workflow, scope).len() == 0)
            == ({
            &&& connection.kind is Object
            &&& is_text(connection, "name"@) || is_text(connection, "referenceName"@) || is_text(
                connection,
                "id"@,
            )
            &&& same_ignoring_case(method, "DELETE"@) || same_ignoring_case(method, "GET"@) || same_ignoring_case(method, "PATCH"@) || same_ignoring_case(method, "POST"@) || same_ignoring_case(method, "PUT"@)
            &&& is_text(inputs, "path"@)
            &&& key == "Primary"@ || key == "Secondary"@
        }),
{
    let declared = field(action, "type"@)->Some_0;
    lemma_plain(file, scope);
    lemma_action_alone(action);
    lemma_action_types(kind);
    lemma_action_by_type(
        action,
        pointer,
        container,
        file,
        workflow,
        scope,
        &declared,
        kind,
        ActionSpec::ApiConnection,
    );
    lemma_inputs_of_connections_are_named(inputs);
    lemma_unmarked_is_literal(method);
    lemma_unmarked_is_literal(key);
    lemma_methods_in_any_case(method);
    lemma_access_key_type_names(key);
    let at = joined(pointer, "inputs"@);
    assert(http_inputs_findings(
        inputs,
        at,
        "ApiConnection inputs"@,
        bounds_of(workflow),
        file,
    ).len() == 0);
}

/// Inputs with these members have nothing else.
proof fn lemma_inputs_of_functions_are_called_by_a_method(node: &Node)
    requires
        holds_only(node, seq!["uri"@, "method"@]),
    ensures
        field(node, "headers"@) is None,
        field(node, "queries"@) is None,
        field(node, "cookie"@) is None,
        field(node, "operationOptions"@) is None,
        field(node, "authentication"@) is None,
        field(node, "retryPolicy"@) is None,
        field(node, "function"@) is None,
        field(node, "functionApp"@) is None,
{
    reveal_strlit("uri");
    reveal_strlit("method");
    reveal_strlit("headers");
    reveal_strlit("queries");
    reveal_strlit("cookie");
    reveal_strlit("operationOptions");
    reveal_strlit("authentication");
    reveal_strlit("retryPolicy");
    reveal_strlit("function");
    reveal_strlit("functionApp");
    assert("uri"@.len() == 3 && "uri"@[0] == 'u');
    assert("method"@.len() == 6 && "method"@[0] == 'm');
    assert("headers"@.len() == 7 && "headers"@[0] == 'h');
    assert("queries"@.len() == 7 && "queries"@[0] == 'q');
    assert("cookie"@.len() == 6 && "cookie"@[0] == 'c');
    assert("operationOptions"@.len() == 16 && "operationOptions"@[0] == 'o');
    assert("authentication"@.len() == 14 && "authentication"@[0] == 'a');
    assert("retryPolicy"@.len() == 11 && "retryPolicy"@[0] == 'r');
    assert("function"@.len() == 8 && "function"@[0] == 'f');
    assert("functionApp"@.len() == 11 && "functionApp"@[0] == 'f');
    let keys = seq!["uri"@, "method"@];
    if field(node, "headers"@) is Some {
        assert(keys.contains("headers"@));
        let i = choose|i: int| 0 <= i < keys.len() && keys[i] == "headers"@;
        assert(keys[i] == "headers"@);
    }
    if field(node, "queries"@) is Some {
        assert(keys.contains("queries"@));
        let i = choose|i: int| 0 <= i < keys.len() && keys[i] == "queries"@;
        assert(keys[i] == "queries"@);
    }
    if field(node, "cookie"@) is Some {
        assert(keys.contains("cookie"@));
        let i = choose|i: int| 0 <= i < keys.len() && keys[i] == "cookie"@;
        assert(keys[i] == "cookie"@);
    }
    if field(node, "operationOptions"@) is Some {
        assert(keys.contains("operationOptions"@));
        let i = choose|i: int| 0 <= i < keys.len() && keys[i] == "operationOptions"@;
        assert(keys[i] == "operationOptions"@);
    }
    if field(node, "authentication"@) is Some {
        assert(keys.contains("authentication"@));
        let i = choose|i: int| 0 <= i < keys.len() && keys[i] == "authentication"@;
        assert(keys[i] == "authentication"@);
    }
    if field(node, "retryPolicy"@) is Some {
        assert(keys.contains("retryPolicy"@));
        let i = choose|i: int| 0 <= i < keys.len() && keys[i] == "retryPolicy"@;
        assert(keys[i] == "retryPolicy"@);
    }
    if field(node, "function"@) is Some {
        assert(keys.contains("function"@));
        let i = choose|i: int| 0 <= i < keys.len() && keys[i] == "function"@;
        assert(keys[i] == "function"@);
    }
    if field(node, "functionApp"@) is Some {
        assert(keys.contains("functionApp"@));
        let i = choose|i: int| 0 <= i < keys.len() && keys[i] == "functionApp"@;
        assert(keys[i] == "functionApp"@);
    }
}

/// A `Function` action with a URI is clean exactly where the method is a known one.
pub proof fn law_functions_are_called_by_a_method(
    action: &Node,
    inputs: &Node,
    kind: Seq<char>,
    method: Seq<char>,
    pointer: Seq<char>,
    container: Seq<char>,
    file: &Document,
    workflow: &Workflow,
    scope: &ArmScope,
)
    requires
        is_plain(file, scope),
        holds_only(action, seq!["type"@, "inputs"@]),
        text_field(action, "type"@) == Some(kind),
        same_ignoring_case(kind, "Function"@),
        field(action, "inputs"@) == Some(*inputs),
        inputs.kind is Object,
        holds_only(inputs, seq!["uri"@, "method"@]),
        is_text(inputs, "uri"@),
        text_field(inputs, "method"@) == Some(method),
        is_unmarked(method),
    ensures
        (authored_action_findings(action, pointer, container, file, workflow, scope).len() == 0)
            == (method == "DELETE"@ || method == "GET"@ || method == "PATCH"@ || method == "POST"@ || method == "PUT"@),
{
    let declared = field(action, "type"@)->Some_0;
    lemma_plain(file, scope);
    lemma_action_alone(action);
    lemma_action_types(kind);
    lemma_action_by_type(
        action,
        pointer,
        container,
        file,
        workflow,
        scope,
        &declared,
        kind,
        ActionSpec::Function,
    );
    lemma_inputs_of_functions_are_called_by_a_method(inputs);
    lemma_unmarked_is_literal(method);
    lemma_endpoint_method_names(method);
    let at = joined(pointer, "inputs"@);
    assert(http_inputs_findings(inputs, at, "Function inputs"@, bounds_of(workflow), file).len()
        == 0);
}

} // verus!
