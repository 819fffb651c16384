//! Shape validators for the variable actions: `InitializeVariable`,
//! `SetVariable`, `AppendToArrayVariable`, `AppendToStringVariable`,
//! `IncrementVariable` and `DecrementVariable`.

use vstd::prelude::*;

use crate::diagnostic::{findings, Diagnostic, Finding};
use crate::json::{
    as_array, as_string, field, get, joined, pointer_join, text_of, Json, Document, Node,
};
use crate::shape::arm_boundary::{
    authored, get_authored, is_opaque, is_opaque_arm_expression, is_opaque_arm_text, is_opaque_text,
};
use crate::shape::dynamic_wdl::{may_be_finite_number, wdl_string_may_be_finite_number};
use crate::shape::field_validators::{enum_findings, validate_optional_string_enum};
use crate::shape::report::{
    issue, missing, report, report_context, report_missing, report_type, report_value,
    wrong_context, wrong_type, wrong_value,
};
use crate::shape::required_fields::{
    inputs_findings, inputs_of, require_typed_field, required_inputs_object,
    typed_field_findings, Shape,
};
use crate::text::{
    chars_of, contains, decimal, decimal_of_usize, ends_with, eq_ignoring_case, has_part,
    has_suffix, in_list_ignoring_case, names, one_of_ignoring_case, owned, same_ignoring_case,
    string_of_range, text2, text3, text6, text_eq, texts,
};
use crate::workflow::{ActionInfo, InitializedVariable, Workflow};

verus! {

broadcast use crate::diagnostic::group_findings;

pub open spec fn variable_type_names() -> Seq<Seq<char>> {
    seq!["Array"@, "Boolean"@, "Float"@, "Integer"@, "Object"@, "String"@]
}

fn variable_types() -> (list: Vec<&'static str>)
    ensures
        names(list@) == variable_type_names(),
{
    let list = vec!["Array", "Boolean", "Float", "Integer", "Object", "String"];
    assert(names(list@) =~= variable_type_names());
    list
}

/// The container is an `actions` object that stands in no other.
pub open spec fn is_root_container(pointer: Seq<char>) -> bool {
    &&& has_suffix(pointer, "/actions"@)
    &&& !has_part(pointer.take(pointer.len() - "/actions"@.len()), "/actions/"@)
}

/// What is wrong with the `name` and `type` of one initializer.
pub open spec fn initializer_findings(object: &Node, base: Seq<char>, file: &Document) -> Seq<
    Finding,
> {
    typed_field_findings(
        object,
        base,
        "name"@,
        "InitializeVariable variable name must be a string"@,
        Shape::Text,
        file,
    ) + match field(object, "type"@) {
        None => missing(
            file,
            base,
            "type"@,
            object.span,
            "InitializeVariable variable is missing required field 'type'"@,
        ),
        Some(kind) => match text_of(&kind) {
            None => wrong_type(
                file,
                base,
                "type"@,
                kind.span,
                "InitializeVariable variable type must be a string"@,
            ),
            Some(text) => if is_opaque(file, &kind)
                || one_of_ignoring_case(text, variable_type_names()) {
                Seq::empty()
            } else {
                wrong_value(
                    file,
                    base,
                    "type"@,
                    kind.span,
                    "InitializeVariable variable type '"@ + text + "' is not supported"@,
                )
            },
        },
    }
}

/// What is wrong with the first `n` initializers of a list.
pub open spec fn initializer_list_findings(
    items: Seq<Node>,
    n: nat,
    base: Seq<char>,
    file: &Document,
) -> Seq<Finding>
    decreases n,
{
    if n == 0 {
        Seq::empty()
    } else {
        let item = items[n - 1];
        let index = decimal(n - 1);
        initializer_list_findings(items, (n - 1) as nat, base, file) + (if is_opaque(file, &item) {
            Seq::empty()
        } else if item.kind is Object {
            initializer_findings(&item, joined(base, index), file)
        } else {
            wrong_type(
                file,
                base,
                index,
                item.span,
                "InitializeVariable variable entries must be objects"@,
            )
        })
    }
}

/// What is wrong with the variables that `inputs` initializes, one or a list.
pub open spec fn initialized_findings(inputs: &Node, base: Seq<char>, file: &Document) -> Seq<
    Finding,
> {
    match field(inputs, "variables"@) {
        None => initializer_findings(inputs, base, file),
        Some(variables) => match variables.kind {
            _ if is_opaque(file, &variables) => Seq::empty(),
            Json::Array(items) => if items@.len() == 0 {
                issue(
                    file,
                    "workflow-shape-invalid-shape"@,
                    joined(base, "variables"@),
                    Some(variables.span),
                    "InitializeVariable inputs.variables must contain at least one variable"@,
                )
            } else {
                initializer_list_findings(
                    items@,
                    items@.len(),
                    joined(base, "variables"@),
                    file,
                )
            },
            _ => wrong_type(
                file,
                base,
                "variables"@,
                variables.span,
                "InitializeVariable inputs.variables must be an array"@,
            ),
        },
    }
}

/// What is wrong with where an `InitializeVariable` action stands.
pub open spec fn container_findings(
    action: &Node,
    base: Seq<char>,
    container: Seq<char>,
    file: &Document,
) -> Seq<Finding> {
    if is_root_container(container) {
        Seq::empty()
    } else {
        issue(
            file,
            "workflow-shape-invalid-context"@,
            base,
            Some(action.span),
            "InitializeVariable actions must be declared at the workflow action root"@,
        )
    }
}

/// What is wrong with an `InitializeVariable` action.
pub open spec fn initialize_variable_findings(
    action: &Node,
    base: Seq<char>,
    container: Seq<char>,
    file: &Document,
) -> Seq<Finding> {
    container_findings(action, base, container, file) + inputs_findings(action, base, file) + match inputs_of(action, file) {
        Some(inputs) => initialized_findings(&inputs, joined(base, "inputs"@), file),
        None => Seq::empty(),
    }
}

/// True if the container is the workflow's root `actions` object.
pub fn is_top_level_action_container(container_pointer: &str) -> (holds: bool)
    ensures
        holds == is_root_container(container_pointer@),
{
    if !ends_with(container_pointer, "/actions") {
        return false;
    }
    let chars = chars_of(container_pointer);
    let suffix = chars_of("/actions");
    let end: usize = chars.len() - suffix.len();
    let prefix = string_of_range(chars.as_slice(), 0, end);
    assert(prefix@ =~= container_pointer@.take(end as int));
    !contains(prefix.as_str(), "/actions/")
}

/// Validate one variable initializer entry.
pub fn validate_variable_initializer(
    object: &Node,
    object_pointer: &str,
    file: &Document,
    diagnostics: &mut Vec<Diagnostic>,
)
    ensures
        findings(final(diagnostics)@) == findings(old(diagnostics)@) + initializer_findings(
            object,
            object_pointer@,
            file,
        ),
{
    require_typed_field(
        object,
        object_pointer,
        "name",
        "InitializeVariable variable name must be a string",
        Shape::Text,
        file,
        diagnostics,
    );
    match get(object, "type") {
        None => {
            report_missing(
                file,
                object_pointer,
                "type",
                object.span,
                "InitializeVariable variable is missing required field 'type'",
                diagnostics,
            );
        },
        Some(kind) => match as_string(kind) {
            None => {
                report_type(
                    file,
                    object_pointer,
                    "type",
                    kind.span,
                    "InitializeVariable variable type must be a string",
                    diagnostics,
                );
            },
            Some(text) => {
                if !is_opaque_arm_expression(file, kind) && !in_list_ignoring_case(
                    text,
                    variable_types().as_slice(),
                ) {
                    let message = text3(
                        "InitializeVariable variable type '",
                        text,
                        "' is not supported",
                    );
                    report_value(
                        file,
                        object_pointer,
                        "type",
                        kind.span,
                        message.as_str(),
                        diagnostics,
                    );
                }
            },
        },
    }
}

/// Validate the variables that `inputs` initializes.
pub fn validate_initialized_variables(
    inputs: &Node,
    inputs_pointer: &str,
    file: &Document,
    diagnostics: &mut Vec<Diagnostic>,
)
    ensures
        findings(final(diagnostics)@) == findings(old(diagnostics)@) + initialized_findings(
            inputs,
            inputs_pointer@,
            file,
        ),
{
    match get(inputs, "variables") {
        None => {
            validate_variable_initializer(inputs, inputs_pointer, file, diagnostics);
        },
        Some(variables) => {
            if is_opaque_arm_expression(file, variables) {
                return;
            }
            let pointer = pointer_join(inputs_pointer, "variables");
            match as_array(variables) {
                None => {
                    report_type(
                        file,
                        inputs_pointer,
                        "variables",
                        variables.span,
                        "InitializeVariable inputs.variables must be an array",
                        diagnostics,
                    );
                },
                Some(items) => {
                    if items.len() == 0 {
                        report(
                            file,
                            "workflow-shape-invalid-shape",
                            pointer.as_str(),
                            Some(variables.span),
                            "InitializeVariable inputs.variables must contain at least one variable",
                            diagnostics,
                        );
                        return;
                    }
                    let ghost before = findings(diagnostics@);
                    let mut i: usize = 0;
                    while i < items.len()
                        invariant
                            i <= items.len(),
                            findings(diagnostics@) == before + initializer_list_findings(
                                items@,
                                i as nat,
                                pointer@,
                                file,
                            ),
                        decreases items.len() - i,
                    {
                        let item = &items[i];
                        let index = decimal_of_usize(i);
                        if is_opaque_arm_expression(file, item) {
                            i += 1;
                            continue;
                        }
                        if item.is_object() {
                            let item_pointer = pointer_join(pointer.as_str(), index.as_str());
                            validate_variable_initializer(
                                item,
                                item_pointer.as_str(),
                                file,
                                diagnostics,
                            );
                        } else {
                            report_type(
                                file,
                                pointer.as_str(),
                                index.as_str(),
                                item.span,
                                "InitializeVariable variable entries must be objects",
                                diagnostics,
                            );
                        }
                        i += 1;
                    }
                },
            }
        },
    }
}

/// Validate where an `InitializeVariable` action stands.
pub fn validate_container(
    action: &Node,
    action_pointer: &str,
    container_pointer: &str,
    file: &Document,
    diagnostics: &mut Vec<Diagnostic>,
)
    ensures
        findings(final(diagnostics)@) == findings(old(diagnostics)@) + container_findings(
            action,
            action_pointer@,
            container_pointer@,
            file,
        ),
{
    if !is_top_level_action_container(container_pointer) {
        report(
            file,
            "workflow-shape-invalid-context",
            action_pointer,
            Some(action.span),
            "InitializeVariable actions must be declared at the workflow action root",
            diagnostics,
        );
    }
}

/// Validate `InitializeVariable`, in its single and its list form.
pub fn validate_initialize_variable_action(
    action: &Node,
    action_pointer: &str,
    container_pointer: &str,
    file: &Document,
    diagnostics: &mut Vec<Diagnostic>,
)
    ensures
        findings(final(diagnostics)@) == findings(old(diagnostics)@)
            + initialize_variable_findings(action, action_pointer@, container_pointer@, file),
{
    validate_container(action, action_pointer, container_pointer, file, diagnostics);
    if let Some(inputs) = required_inputs_object(action, action_pointer, file, diagnostics) {
        let pointer = pointer_join(action_pointer, "inputs");
        validate_initialized_variables(inputs, pointer.as_str(), file, diagnostics);
    }
}

/// `left` comes before `right` in the order of code points.
pub open spec fn precedes(left: Seq<char>, right: Seq<char>) -> bool
    decreases left.len(),
{
    if right.len() == 0 {
        false
    } else if left.len() == 0 {
        true
    } else if left[0] == right[0] {
        precedes(left.skip(1), right.skip(1))
    } else {
        left[0] < right[0]
    }
}

/// `item` added to an ordered list, unless it is there.
pub open spec fn inserted(list: Seq<Seq<char>>, item: Seq<char>) -> Seq<Seq<char>>
    decreases list.len(),
{
    if list.len() == 0 {
        seq![item]
    } else if list[0] == item {
        list
    } else if precedes(item, list[0]) {
        seq![item] + list
    } else {
        seq![list[0]] + inserted(list.skip(1), item)
    }
}

/// The types among the first `n` variables called `name`, added to `list`.
pub open spec fn types_among(
    variables: Seq<InitializedVariable>,
    n: nat,
    name: Seq<char>,
    list: Seq<Seq<char>>,
) -> Seq<Seq<char>>
    decreases n,
{
    if n == 0 {
        list
    } else {
        let before = types_among(variables, (n - 1) as nat, name, list);
        let variable = variables[n - 1];
        if variable.name@ == name {
            inserted(before, variable.variable_type@)
        } else {
            before
        }
    }
}

/// The types that the first `n` actions in `container` give to `name`, each
/// once and in order.
pub open spec fn declared_types(
    actions: Seq<ActionInfo>,
    n: nat,
    container: Seq<char>,
    name: Seq<char>,
) -> Seq<Seq<char>>
    decreases n,
{
    if n == 0 {
        Seq::empty()
    } else {
        let before = declared_types(actions, (n - 1) as nat, container, name);
        let action = actions[n - 1];
        if action.container_pointer@ == container {
            types_among(
                action.initialized_variables@,
                action.initialized_variables@.len(),
                name,
                before,
            )
        } else {
            before
        }
    }
}

/// The texts with `, ` between them.
pub open spec fn comma_joined(list: Seq<Seq<char>>) -> Seq<char>
    decreases list.len(),
{
    if list.len() == 0 {
        Seq::empty()
    } else if list.len() == 1 {
        list[0]
    } else {
        comma_joined(list.drop_last()) + ", "@ + list.last()
    }
}

pub open spec fn is_numeric_type(text: Seq<char>) -> bool {
    same_ignoring_case(text, "Integer"@) || same_ignoring_case(text, "Float"@)
}

/// A declared type is numeric, or a template expression that may give one.
pub open spec fn may_be_numeric_type(file: &Document, text: Seq<char>) -> bool {
    is_numeric_type(text) || is_opaque_text(file, text)
}

/// What is wrong with the variable that an increment or decrement targets.
pub open spec fn numeric_target_findings(
    inputs: &Node,
    base: Seq<char>,
    action_type: Seq<char>,
    file: &Document,
    workflow: &Workflow,
) -> Seq<Finding> {
    match authored(file, inputs, "name"@) {
        None => Seq::empty(),
        Some(value) => match text_of(&value) {
            None => Seq::empty(),
            Some(name) => {
                let types = declared_types(
                    workflow.action_list@,
                    workflow.action_list@.len(),
                    joined(workflow.definition_pointer@, "actions"@),
                    name,
                );
                if types.len() == 0 || exists|i: int|
                    0 <= i < types.len() && may_be_numeric_type(file, #[trigger] types[i]) {
                    Seq::empty()
                } else {
                    wrong_context(
                        file,
                        base,
                        "name"@,
                        value.span,
                        action_type + " targets non-numeric variable '"@ + name + "' of type '"@
                            + comma_joined(types) + "'"@,
                    )
                }
            },
        },
    }
}

pub open spec fn is_assignment(action_type: Seq<char>) -> bool {
    ||| same_ignoring_case(action_type, "SetVariable"@)
    ||| same_ignoring_case(action_type, "AppendToArrayVariable"@)
    ||| same_ignoring_case(action_type, "AppendToStringVariable"@)
}

pub open spec fn is_step(action_type: Seq<char>) -> bool {
    ||| same_ignoring_case(action_type, "IncrementVariable"@)
    ||| same_ignoring_case(action_type, "DecrementVariable"@)
}

/// What is wrong with the amount of an increment or decrement.
pub open spec fn step_findings(
    inputs: &Node,
    base: Seq<char>,
    action_type: Seq<char>,
    file: &Document,
) -> Seq<Finding> {
    match authored(file, inputs, "value"@) {
        None => Seq::empty(),
        Some(value) => if value.kind is Number || (text_of(&value) is Some && may_be_finite_number(
            file,
            text_of(&value)->Some_0,
        )) {
            Seq::empty()
        } else {
            wrong_type(
                file,
                base,
                "value"@,
                value.span,
                action_type + " inputs.value must be a number or expression string"@,
            )
        },
    }
}

/// What is wrong with the inputs of an action that sets, appends to or steps
/// a variable.
pub open spec fn variable_update_inputs_findings(
    inputs: &Node,
    base: Seq<char>,
    action_type: Seq<char>,
    file: &Document,
    workflow: &Workflow,
) -> Seq<Finding> {
    typed_field_findings(
        inputs,
        base,
        "name"@,
        "variable action inputs.name must be a string"@,
        Shape::Text,
        file,
    ) + (if is_assignment(action_type) {
        typed_field_findings(
            inputs,
            base,
            "value"@,
            "variable action inputs.value must be present"@,
            Shape::Any,
            file,
        )
    } else {
        Seq::empty()
    }) + (if is_step(action_type) {
        step_findings(inputs, base, action_type, file) + numeric_target_findings(
            inputs,
            base,
            action_type,
            file,
            workflow,
        )
    } else {
        Seq::empty()
    }) + enum_findings(
        inputs,
        base,
        "type"@,
        "variable action inputs.type"@,
        variable_type_names(),
        file,
    )
}

/// What is wrong with an action that sets, appends to or steps a variable.
pub open spec fn variable_update_findings(
    action: &Node,
    pointer: Seq<char>,
    action_type: Seq<char>,
    file: &Document,
    workflow: &Workflow,
) -> Seq<Finding> {
    inputs_findings(action, pointer, file) + match inputs_of(action, file) {
        None => Seq::empty(),
        Some(inputs) => variable_update_inputs_findings(
            &inputs,
            joined(pointer, "inputs"@),
            action_type,
            file,
            workflow,
        ),
    }
}

fn comes_before(left: &str, right: &str) -> (holds: bool)
    ensures
        holds == precedes(left@, right@),
{
    let l = chars_of(left);
    let r = chars_of(right);
    let mut i: usize = 0;
    assert(l@.skip(0) =~= l@);
    assert(r@.skip(0) =~= r@);
    while i < l.len() && i < r.len()
        invariant
            i <= l.len(),
            i <= r.len(),
            precedes(l@, r@) == precedes(l@.skip(i as int), r@.skip(i as int)),
            l@ == left@,
            r@ == right@,
        decreases l.len() - i,
    {
        assert(l@.skip(i as int)[0] == l@[i as int]);
        assert(r@.skip(i as int)[0] == r@[i as int]);
        if l[i] != r[i] {
            return l[i] < r[i];
        }
        assert(l@.skip(i as int).skip(1) =~= l@.skip(i + 1));
        assert(r@.skip(i as int).skip(1) =~= r@.skip(i + 1));
        i += 1;
    }
    i < r.len()
}

fn insert_ordered(list: &mut Vec<String>, item: &str)
    ensures
        texts(final(list)@) == inserted(texts(old(list)@), item@),
{
    let ghost all = texts(list@);
    let mut i: usize = 0;
    assert(all.skip(0) =~= all);
    assert(all.take(0) + inserted(all.skip(0), item@) =~= inserted(all, item@));
    while i < list.len()
        invariant
            i <= list.len(),
            all == texts(list@),
            list@ == old(list)@,
            inserted(all, item@) == all.take(i as int) + inserted(all.skip(i as int), item@),
        decreases list.len() - i,
    {
        let current = list[i].clone();
        assert(all.skip(i as int)[0] == current@);
        if text_eq(current.as_str(), item) {
            assert(all.take(i as int) + all.skip(i as int) =~= all);
            return;
        }
        if comes_before(item, current.as_str()) {
            list.insert(i, owned(item));
            assert(texts(list@) =~= all.take(i as int) + (seq![item@] + all.skip(i as int)));
            return;
        }
        assert(all.skip(i as int).skip(1) =~= all.skip(i + 1));
        assert(all.take(i as int) + (seq![current@] + inserted(all.skip(i + 1), item@))
            =~= all.take(i + 1) + inserted(all.skip(i + 1), item@));
        i += 1;
    }
    list.push(owned(item));
    assert(all.skip(i as int) =~= Seq::<Seq<char>>::empty());
    assert(texts(list@) =~= all.take(i as int) + seq![item@]);
}

fn collect_types(variables: &Vec<InitializedVariable>, name: &str, types: &mut Vec<String>)
    ensures
        texts(final(types)@) == types_among(
            variables@,
            variables@.len(),
            name@,
            texts(old(types)@),
        ),
{
    let mut i: usize = 0;
    while i < variables.len()
        invariant
            i <= variables.len(),
            texts(types@) == types_among(variables@, i as nat, name@, texts(old(types)@)),
        decreases variables.len() - i,
    {
        let variable = &variables[i];
        if text_eq(variable.name.as_str(), name) {
            insert_ordered(types, variable.variable_type.as_str());
        }
        i += 1;
    }
}

fn join_with_commas(list: &Vec<String>) -> (text: String)
    ensures
        text@ == comma_joined(texts(list@)),
{
    let mut text = String::new();
    let mut i: usize = 0;
    assert(text@ =~= comma_joined(texts(list@).take(0)));
    while i < list.len()
        invariant
            i <= list.len(),
            text@ == comma_joined(texts(list@).take(i as int)),
        decreases list.len() - i,
    {
        assert(texts(list@).take(i + 1).drop_last() =~= texts(list@).take(i as int));
        if i == 0 {
            text = list[i].clone();
        } else {
            text = text3(text.as_str(), ", ", list[i].as_str());
        }
        i += 1;
    }
    assert(texts(list@).take(i as int) =~= texts(list@));
    text
}

fn has_numeric_type(types: &Vec<String>, file: &Document) -> (holds: bool)
    ensures
        holds == exists|i: int|
            0 <= i < types@.len() && may_be_numeric_type(file, #[trigger] texts(types@)[i]),
{
    let mut i: usize = 0;
    while i < types.len()
        invariant
            i <= types.len(),
            forall|j: int|
                0 <= j < i ==> !may_be_numeric_type(file, #[trigger] texts(types@)[j]),
        decreases types.len() - i,
    {
        if eq_ignoring_case(types[i].as_str(), "Integer") || eq_ignoring_case(
            types[i].as_str(),
            "Float",
        ) || is_opaque_arm_text(file, types[i].as_str()) {
            assert(may_be_numeric_type(file, texts(types@)[i as int]));
            return true;
        }
        i += 1;
    }
    false
}

/// Refuse a step of a variable that is only ever declared with non-numeric types.
fn validate_numeric_variable_target(
    inputs: &Node,
    inputs_pointer: &str,
    action_type: &str,
    file: &Document,
    workflow: &Workflow,
    diagnostics: &mut Vec<Diagnostic>,
)
    ensures
        findings(final(diagnostics)@) == findings(old(diagnostics)@) + numeric_target_findings(
            inputs,
            inputs_pointer@,
            action_type@,
            file,
            workflow,
        ),
{
    if let Some(value) = get_authored(file, inputs, "name") {
        if let Some(name) = as_string(value) {
            let container = pointer_join(workflow.definition_pointer.as_str(), "actions");
            let actions = &workflow.action_list;
            let mut types: Vec<String> = Vec::new();
            assert(texts(types@) =~= Seq::<Seq<char>>::empty());
            let mut i: usize = 0;
            while i < actions.len()
                invariant
                    i <= actions.len(),
                    texts(types@) == declared_types(actions@, i as nat, container@, name@),
                decreases actions.len() - i,
            {
                let action = &actions[i];
                if text_eq(action.container_pointer.as_str(), container.as_str()) {
                    collect_types(&action.initialized_variables, name, &mut types);
                }
                i += 1;
            }
            if types.len() > 0 && !has_numeric_type(&types, file) {
                let list = join_with_commas(&types);
                let message = text6(
                    action_type,
                    " targets non-numeric variable '",
                    name,
                    "' of type '",
                    list.as_str(),
                    "'",
                );
                report_context(
                    file,
                    inputs_pointer,
                    "name",
                    value.span,
                    message.as_str(),
                    diagnostics,
                );
            }
        }
    }
}

fn validate_step_value(
    inputs: &Node,
    inputs_pointer: &str,
    action_type: &str,
    file: &Document,
    diagnostics: &mut Vec<Diagnostic>,
)
    ensures
        findings(final(diagnostics)@) == findings(old(diagnostics)@) + step_findings(
            inputs,
            inputs_pointer@,
            action_type@,
            file,
        ),
{
    if let Some(value) = get_authored(file, inputs, "value") {
        let numeric = value.is_number() || match as_string(value) {
            Some(text) => wdl_string_may_be_finite_number(file, text),
            None => false,
        };
        if !numeric {
            let message = text2(
                action_type,
                " inputs.value must be a number or expression string",
            );
            report_type(file, inputs_pointer, "value", value.span, message.as_str(), diagnostics);
        }
    }
}

/// Validate the inputs of an action that sets, appends to or steps a variable.
pub fn validate_variable_update_inputs(
    inputs: &Node,
    base: &str,
    action_type: &str,
    file: &Document,
    workflow: &Workflow,
    diagnostics: &mut Vec<Diagnostic>,
)
    ensures
        findings(final(diagnostics)@) == findings(old(diagnostics)@)
            + variable_update_inputs_findings(inputs, base@, action_type@, file, workflow),
{
    require_typed_field(
        inputs,
        base,
        "name",
        "variable action inputs.name must be a string",
        Shape::Text,
        file,
        diagnostics,
    );
    if eq_ignoring_case(action_type, "SetVariable") || eq_ignoring_case(
        action_type,
        "AppendToArrayVariable",
    ) || eq_ignoring_case(action_type, "AppendToStringVariable") {
        require_typed_field(
            inputs,
            base,
            "value",
            "variable action inputs.value must be present",
            Shape::Any,
            file,
            diagnostics,
        );
    }
    if eq_ignoring_case(action_type, "IncrementVariable") || eq_ignoring_case(
        action_type,
        "DecrementVariable",
    ) {
        validate_step_value(inputs, base, action_type, file, diagnostics);
        validate_numeric_variable_target(inputs, base, action_type, file, workflow, diagnostics);
    }
    validate_optional_string_enum(
        inputs,
        base,
        "type",
        "variable action inputs.type",
        variable_types().as_slice(),
        file,
        diagnostics,
    );
}

/// Validate an action that sets, appends to or steps a variable.
pub fn validate_variable_update_action(
    action: &Node,
    action_pointer: &str,
    action_type: &str,
    file: &Document,
    workflow: &Workflow,
    diagnostics: &mut Vec<Diagnostic>,
)
    ensures
        findings(final(diagnostics)@) == findings(old(diagnostics)@) + variable_update_findings(
            action,
            action_pointer@,
            action_type@,
            file,
            workflow,
        ),
{
    if let Some(inputs) = required_inputs_object(action, action_pointer, file, diagnostics) {
        let pointer = pointer_join(action_pointer, "inputs");
        validate_variable_update_inputs(
            inputs,
            pointer.as_str(),
            action_type,
            file,
            workflow,
            diagnostics,
        );
    }
}

} // verus!
