//! What code and the properties that are kept of an action may refer to.

use vstd::prelude::*;

use crate::arm::ArmScope;
use crate::json::{field, joined, text_field, text_of, Document, Json, Node};
use crate::shape::actions::data::{dependency_findings, is_readable, variable_action_names};
use crate::shape::content_transfer::{
    chunked_pattern_names, compacted, has_part_ignoring_case, reads_unavailable_output,
};
use crate::shape::data_laws::is_text;
use crate::shape::graph::{comes_before, position_named};
use crate::shape::holes::{has_open_order, is_order_open};
use crate::shape::operations::authored_action_findings;
use crate::shape::plain_laws::{
    holds_only, is_plain, lemma_action_alone, lemma_action_by_type, lemma_plain,
};
use crate::shape::registry::ActionSpec;
use crate::shape::type_laws::lemma_action_types;
use crate::text::{one_of_ignoring_case, same_ignoring_case};
use crate::wdl::lex::is_space;

use crate::workflow::{ActionInfo, Workflow};

verus! {

proof fn lemma_variable_action_names(name: Seq<char>)
    ensures
        one_of_ignoring_case(name, variable_action_names()) == (same_ignoring_case(name, "AppendToArrayVariable"@) || same_ignoring_case(name, "AppendToStringVariable"@) || same_ignoring_case(name, "DecrementVariable"@) || same_ignoring_case(name, "IncrementVariable"@) || same_ignoring_case(name, "InitializeVariable"@) || same_ignoring_case(name, "SetVariable"@)),
{
    let list = variable_action_names();
    assert(list[0] == "AppendToArrayVariable"@);
    assert(list[1] == "AppendToStringVariable"@);
    assert(list[2] == "DecrementVariable"@);
    assert(list[3] == "IncrementVariable"@);
    assert(list[4] == "InitializeVariable"@);
    assert(list[5] == "SetVariable"@);
    if one_of_ignoring_case(name, list) {
        let k = choose|k: int| 0 <= k < list.len() && same_ignoring_case(name, #[trigger] list[k]);
        assert(same_ignoring_case(name, list[k]));
    }
}

proof fn lemma_named(list: Seq<ActionInfo>, name: Seq<char>, from: int)
    requires
        0 <= from,
    ensures
        match position_named(list, name, from) {
            Some(at) => from <= at < list.len() && list[at].name@ == name && forall|i: int|
                from <= i < at ==> (#[trigger] list[i]).name@ != name,
            None => forall|i: int| from <= i < list.len() ==> (#[trigger] list[i]).name@ != name,
        },
    decreases list.len() - from,
{
    if from < list.len() {
        lemma_named(list, name, from + 1);
    }
}

/// The first action of a name may be read by code: it is no loop, and changes no
/// variable.
pub open spec fn may_be_read(list: Seq<ActionInfo>, name: Seq<char>) -> bool {
    exists|at: int|
        #![trigger list[at]]
        0 <= at < list.len() && list[at].name@ == name && (forall|i: int|
            0 <= i < at ==> (#[trigger] list[i]).name@ != name) && !(list[at].kind is Foreach)
            && !(list[at].kind is Until) && match list[at].action_type {
            Some(kind) => !(same_ignoring_case(kind@, "AppendToArrayVariable"@) || same_ignoring_case(kind@, "AppendToStringVariable"@) || same_ignoring_case(kind@, "DecrementVariable"@) || same_ignoring_case(kind@, "IncrementVariable"@) || same_ignoring_case(kind@, "InitializeVariable"@) || same_ignoring_case(kind@, "SetVariable"@)),
            None => true,
        }
}

/// A `JavaScriptCode` action that names one action is clean exactly where that
/// action exists, may be read, and comes before.
pub proof fn law_code_depends_on_what_came_before(
    action: &Node,
    inputs: &Node,
    kind: Seq<char>,
    dependencies: &Node,
    items: Vec<Node>,
    name: Seq<char>,
    pointer: Seq<char>,
    container: Seq<char>,
    file: &Document,
    workflow: &Workflow,
    scope: &ArmScope,
)
    requires
        is_plain(file, scope),
        holds_only(action, seq!["type"@, "inputs"@]),
        text_field(action, "type"@) == Some(kind),
        same_ignoring_case(kind, "JavaScriptCode"@),
        field(action, "inputs"@) == Some(*inputs),
        inputs.kind is Object,
        holds_only(inputs, seq!["code"@, "explicitDependencies"@]),
        is_text(inputs, "code"@),
        field(inputs, "explicitDependencies"@) == Some(*dependencies),
        dependencies.kind is Object,
        field(dependencies, "includeTrigger"@) is None,
        field(dependencies, "actions"@) is Some,
        (field(dependencies, "actions"@)->Some_0).kind == Json::Array(items),
        items@.len() == 1,
        text_of(&items@[0]) == Some(name),
        forall|i: int|
            0 <= i < workflow.action_list@.len() ==> !(
            #[trigger] workflow.action_list@[i]).has_opaque_run_after,
    ensures
        (authored_action_findings(action, pointer, container, file, workflow, scope).len() == 0)
            == (may_be_read(workflow.actions@, name) && comes_before(workflow.actions@, pointer, name)),
{
    let declared = field(action, "type"@)->Some_0;
    lemma_plain(file, scope);
    lemma_action_alone(action);
    lemma_action_types(kind);
    lemma_action_by_type(
        action,
        pointer,
        container,
        file,
        workflow,
        scope,
        &declared,
        kind,
        ActionSpec::JavaScriptCode,
    );
    let at = joined(
        joined(joined(pointer, "inputs"@), "explicitDependencies"@),
        "actions"@,
    );
    let list = workflow.actions@;
    lemma_named(list, name, 0);
    assert(!is_order_open(workflow, file)) by {
        assert forall|i: int| 0 <= i < workflow.action_list@.len() implies !has_open_order(
            workflow,
            file,
            #[trigger] &workflow.action_list@[i],
        ) by {}
    }
    assert(!crate::shape::holes::are_actions_open(workflow, file));
    if let Some(first) = position_named(list, name, 0) {
        if let Some(kind) = list[first].action_type {
            lemma_variable_action_names(kind@);
        }
        assert(is_readable(&list[first]) == may_be_read(list, name)) by {
            if may_be_read(list, name) {
                let other = choose|at: int|
                    #![trigger list[at]]
                    0 <= at < list.len() && list[at].name@ == name && (forall|i: int|
                        0 <= i < at ==> (#[trigger] list[i]).name@ != name) && !(
                    list[at].kind is Foreach) && !(list[at].kind is Until) && match list[at].action_type {
                        Some(kind) => !(same_ignoring_case(kind@, "AppendToArrayVariable"@) || same_ignoring_case(kind@, "AppendToStringVariable"@) || same_ignoring_case(kind@, "DecrementVariable"@) || same_ignoring_case(kind@, "IncrementVariable"@) || same_ignoring_case(kind@, "InitializeVariable"@) || same_ignoring_case(kind@, "SetVariable"@)),
                        None => true,
                    };
                assert(other == first);
            }
        }
    }
    assert(dependency_findings(items@, 0, at, pointer, file, workflow).len() == 0);
    let found = dependency_findings(items@, 1, at, pointer, file, workflow);
    assert((found.len() == 0) == (may_be_read(list, name) && comes_before(list, pointer, name)));
}

/// A text without spaces.
pub open spec fn has_no_space(text: Seq<char>) -> bool {
    forall|i: int| 0 <= i < text.len() ==> !is_space(#[trigger] text[i])
}

proof fn lemma_compact(text: Seq<char>)
    requires
        has_no_space(text),
    ensures
        compacted(text) == text,
    decreases text.len(),
{
    if text.len() > 0 {
        lemma_compact(text.drop_last());
        assert(text.drop_last().push(text.last()) =~= text);
    } else {
        assert(compacted(text) =~= text);
    }
}

proof fn lemma_part(front: Seq<char>, part: Seq<char>, back: Seq<char>)
    ensures
        has_part_ignoring_case(front + part + back, part),
{
    let text = front + part + back;
    let n = front.len() as int;
    assert(text.subrange(n, n + part.len()) =~= part);
    assert(same_ignoring_case(text.subrange(n, n + part.len()), part));
}

/// Code reads what a transfer in chunks leaves out where it reads the status code
/// or the headers of the outputs of the action, in any of the ways to read a
/// member.
pub proof fn law_chunked_outputs_are_not_read(front: Seq<char>, pattern: Seq<char>, back: Seq<char>)
    requires
        has_no_space(front),
        has_no_space(back),
        pattern == ".outputs.statuscode"@ || pattern == ".outputs?.statuscode"@ || pattern == ".outputs['statuscode']"@ || pattern == ".outputs?['statuscode']"@ || pattern == "['outputs'].statuscode"@ || pattern == "['outputs']?.statuscode"@ || pattern == "['outputs']['statuscode']"@ || pattern == "['outputs']?['statuscode']"@ || pattern == ".outputs.headers"@ || pattern == ".outputs?.headers"@ || pattern == ".outputs['headers']"@ || pattern == ".outputs?['headers']"@ || pattern == "['outputs'].headers"@ || pattern == "['outputs']?.headers"@ || pattern == "['outputs']['headers']"@ || pattern == "['outputs']?['headers']"@,
    ensures
        reads_unavailable_output(front + "action()"@ + pattern + back),
{
    let text = front + "action()"@ + pattern + back;
    let list = chunked_pattern_names();
    assert(list[0] == ".outputs.statuscode"@);
    assert(list[1] == ".outputs?.statuscode"@);
    assert(list[2] == ".outputs['statuscode']"@);
    assert(list[3] == ".outputs?['statuscode']"@);
    assert(list[4] == "['outputs'].statuscode"@);
    assert(list[5] == "['outputs']?.statuscode"@);
    assert(list[6] == "['outputs']['statuscode']"@);
    assert(list[7] == "['outputs']?['statuscode']"@);
    assert(list[8] == ".outputs.headers"@);
    assert(list[9] == ".outputs?.headers"@);
    assert(list[10] == ".outputs['headers']"@);
    assert(list[11] == ".outputs?['headers']"@);
    assert(list[12] == "['outputs'].headers"@);
    assert(list[13] == "['outputs']?.headers"@);
    assert(list[14] == "['outputs']['headers']"@);
    assert(list[15] == "['outputs']?['headers']"@);
    reveal_strlit("action()");
    reveal_strlit("outputs");
    reveal_strlit(".outputs.statuscode");
    reveal_strlit(".outputs?.statuscode");
    reveal_strlit(".outputs['statuscode']");
    reveal_strlit(".outputs?['statuscode']");
    reveal_strlit("['outputs'].statuscode");
    reveal_strlit("['outputs']?.statuscode");
    reveal_strlit("['outputs']['statuscode']");
    reveal_strlit("['outputs']?['statuscode']");
    reveal_strlit(".outputs.headers");
    reveal_strlit(".outputs?.headers");
    reveal_strlit(".outputs['headers']");
    reveal_strlit(".outputs?['headers']");
    reveal_strlit("['outputs'].headers");
    reveal_strlit("['outputs']?.headers");
    reveal_strlit("['outputs']['headers']");
    reveal_strlit("['outputs']?['headers']");
    assert(has_no_space(pattern)) by {
        if pattern == ".outputs.statuscode"@ {
            lemma_pattern_0();
        }
        if pattern == ".outputs?.statuscode"@ {
            lemma_pattern_1();
        }
        if pattern == ".outputs['statuscode']"@ {
            lemma_pattern_2();
        }
        if pattern == ".outputs?['statuscode']"@ {
            lemma_pattern_3();
        }
        if pattern == "['outputs'].statuscode"@ {
            lemma_pattern_4();
        }
        if pattern == "['outputs']?.statuscode"@ {
            lemma_pattern_5();
        }
        if pattern == "['outputs']['statuscode']"@ {
            lemma_pattern_6();
        }
        if pattern == "['outputs']?['statuscode']"@ {
            lemma_pattern_7();
        }
        if pattern == ".outputs.headers"@ {
            lemma_pattern_8();
        }
        if pattern == ".outputs?.headers"@ {
            lemma_pattern_9();
        }
        if pattern == ".outputs['headers']"@ {
            lemma_pattern_10();
        }
        if pattern == ".outputs?['headers']"@ {
            lemma_pattern_11();
        }
        if pattern == "['outputs'].headers"@ {
            lemma_pattern_12();
        }
        if pattern == "['outputs']?.headers"@ {
            lemma_pattern_13();
        }
        if pattern == "['outputs']['headers']"@ {
            lemma_pattern_14();
        }
        if pattern == "['outputs']?['headers']"@ {
            lemma_pattern_15();
        }
    }
    assert(has_no_space("action()"@));
    assert forall|i: int| 0 <= i < text.len() implies !is_space(#[trigger] text[i]) by {
        let a = front.len() as int;
        let b = a + 8;
        let c = b + pattern.len();
        if i < a {
            assert(text[i] == front[i]);
        } else if i < b {
            assert(text[i] == "action()"@[i - a]);
        } else if i < c {
            assert(text[i] == pattern[i - b]);
        } else {
            assert(text[i] == back[i - c]);
        }
    }
    lemma_compact(text);
    assert(text =~= front + "action()"@ + (pattern + back));
    lemma_part(front, "action()"@, pattern + back);
    lemma_part(front + "action()"@, pattern, back);
    let cut = if pattern[0] == '.' {
        1int
    } else {
        2int
    };
    assert(pattern.subrange(cut, cut + 7) =~= "outputs"@) by {
        if pattern == ".outputs.statuscode"@ {
            lemma_pattern_0();
        }
        if pattern == ".outputs?.statuscode"@ {
            lemma_pattern_1();
        }
        if pattern == ".outputs['statuscode']"@ {
            lemma_pattern_2();
        }
        if pattern == ".outputs?['statuscode']"@ {
            lemma_pattern_3();
        }
        if pattern == "['outputs'].statuscode"@ {
            lemma_pattern_4();
        }
        if pattern == "['outputs']?.statuscode"@ {
            lemma_pattern_5();
        }
        if pattern == "['outputs']['statuscode']"@ {
            lemma_pattern_6();
        }
        if pattern == "['outputs']?['statuscode']"@ {
            lemma_pattern_7();
        }
        if pattern == ".outputs.headers"@ {
            lemma_pattern_8();
        }
        if pattern == ".outputs?.headers"@ {
            lemma_pattern_9();
        }
        if pattern == ".outputs['headers']"@ {
            lemma_pattern_10();
        }
        if pattern == ".outputs?['headers']"@ {
            lemma_pattern_11();
        }
        if pattern == "['outputs'].headers"@ {
            lemma_pattern_12();
        }
        if pattern == "['outputs']?.headers"@ {
            lemma_pattern_13();
        }
        if pattern == "['outputs']['headers']"@ {
            lemma_pattern_14();
        }
        if pattern == "['outputs']?['headers']"@ {
            lemma_pattern_15();
        }
    }
    assert(text =~= (front + "action()"@ + pattern.take(cut)) + "outputs"@ + (pattern.skip(cut + 7)
        + back));
    lemma_part(
        front + "action()"@ + pattern.take(cut),
        "outputs"@,
        pattern.skip(cut + 7) + back,
    );
    let k = choose|k: int| 0 <= k < list.len() && list[k] == pattern;
    assert(has_part_ignoring_case(compacted(text), list[k]));
}

proof fn lemma_pattern_0()
    ensures
        has_no_space(".outputs.statuscode"@),
        ".outputs.statuscode"@.len() >= 8,
        ".outputs.statuscode"@.subrange(1, 8) == "outputs"@,
{
    reveal_strlit(".outputs.statuscode");
    reveal_strlit("outputs");
    assert(".outputs.statuscode"@.len() == 19);
    assert(".outputs.statuscode"@[0] == '.');
    assert(".outputs.statuscode"@[1] == 'o');
    assert(".outputs.statuscode"@[2] == 'u');
    assert(".outputs.statuscode"@[3] == 't');
    assert(".outputs.statuscode"@[4] == 'p');
    assert(".outputs.statuscode"@[5] == 'u');
    assert(".outputs.statuscode"@[6] == 't');
    assert(".outputs.statuscode"@[7] == 's');
    assert(".outputs.statuscode"@[8] == '.');
    assert(".outputs.statuscode"@[9] == 's');
    assert(".outputs.statuscode"@[10] == 't');
    assert(".outputs.statuscode"@[11] == 'a');
    assert(".outputs.statuscode"@[12] == 't');
    assert(".outputs.statuscode"@[13] == 'u');
    assert(".outputs.statuscode"@[14] == 's');
    assert(".outputs.statuscode"@[15] == 'c');
    assert(".outputs.statuscode"@[16] == 'o');
    assert(".outputs.statuscode"@[17] == 'd');
    assert(".outputs.statuscode"@[18] == 'e');
    assert(".outputs.statuscode"@.subrange(1, 8) =~= "outputs"@);
}

proof fn lemma_pattern_1()
    ensures
        has_no_space(".outputs?.statuscode"@),
        ".outputs?.statuscode"@.len() >= 8,
        ".outputs?.statuscode"@.subrange(1, 8) == "outputs"@,
{
    reveal_strlit(".outputs?.statuscode");
    reveal_strlit("outputs");
    assert(".outputs?.statuscode"@.len() == 20);
    assert(".outputs?.statuscode"@[0] == '.');
    assert(".outputs?.statuscode"@[1] == 'o');
    assert(".outputs?.statuscode"@[2] == 'u');
    assert(".outputs?.statuscode"@[3] == 't');
    assert(".outputs?.statuscode"@[4] == 'p');
    assert(".outputs?.statuscode"@[5] == 'u');
    assert(".outputs?.statuscode"@[6] == 't');
    assert(".outputs?.statuscode"@[7] == 's');
    assert(".outputs?.statuscode"@[8] == '?');
    assert(".outputs?.statuscode"@[9] == '.');
    assert(".outputs?.statuscode"@[10] == 's');
    assert(".outputs?.statuscode"@[11] == 't');
    assert(".outputs?.statuscode"@[12] == 'a');
    assert(".outputs?.statuscode"@[13] == 't');
    assert(".outputs?.statuscode"@[14] == 'u');
    assert(".outputs?.statuscode"@[15] == 's');
    assert(".outputs?.statuscode"@[16] == 'c');
    assert(".outputs?.statuscode"@[17] == 'o');
    assert(".outputs?.statuscode"@[18] == 'd');
    assert(".outputs?.statuscode"@[19] == 'e');
    assert(".outputs?.statuscode"@.subrange(1, 8) =~= "outputs"@);
}

proof fn lemma_pattern_2()
    ensures
        has_no_space(".outputs['statuscode']"@),
        ".outputs['statuscode']"@.len() >= 8,
        ".outputs['statuscode']"@.subrange(1, 8) == "outputs"@,
{
    reveal_strlit(".outputs['statuscode']");
    reveal_strlit("outputs");
    assert(".outputs['statuscode']"@.len() == 22);
    assert(".outputs['statuscode']"@[0] == '.');
    assert(".outputs['statuscode']"@[1] == 'o');
    assert(".outputs['statuscode']"@[2] == 'u');
    assert(".outputs['statuscode']"@[3] == 't');
    assert(".outputs['statuscode']"@[4] == 'p');
    assert(".outputs['statuscode']"@[5] == 'u');
    assert(".outputs['statuscode']"@[6] == 't');
    assert(".outputs['statuscode']"@[7] == 's');
    assert(".outputs['statuscode']"@[8] == '[');
    assert(".outputs['statuscode']"@[9] == '\'');
    assert(".outputs['statuscode']"@[10] == 's');
    assert(".outputs['statuscode']"@[11] == 't');
    assert(".outputs['statuscode']"@[12] == 'a');
    assert(".outputs['statuscode']"@[13] == 't');
    assert(".outputs['statuscode']"@[14] == 'u');
    assert(".outputs['statuscode']"@[15] == 's');
    assert(".outputs['statuscode']"@[16] == 'c');
    assert(".outputs['statuscode']"@[17] == 'o');
    assert(".outputs['statuscode']"@[18] == 'd');
    assert(".outputs['statuscode']"@[19] == 'e');
    assert(".outputs['statuscode']"@[20] == '\'');
    assert(".outputs['statuscode']"@[21] == ']');
    assert(".outputs['statuscode']"@.subrange(1, 8) =~= "outputs"@);
}

proof fn lemma_pattern_3()
    ensures
        has_no_space(".outputs?['statuscode']"@),
        ".outputs?['statuscode']"@.len() >= 8,
        ".outputs?['statuscode']"@.subrange(1, 8) == "outputs"@,
{
    reveal_strlit(".outputs?['statuscode']");
    reveal_strlit("outputs");
    assert(".outputs?['statuscode']"@.len() == 23);
    assert(".outputs?['statuscode']"@[0] == '.');
    assert(".outputs?['statuscode']"@[1] == 'o');
    assert(".outputs?['statuscode']"@[2] == 'u');
    assert(".outputs?['statuscode']"@[3] == 't');
    assert(".outputs?['statuscode']"@[4] == 'p');
    assert(".outputs?['statuscode']"@[5] == 'u');
    assert(".outputs?['statuscode']"@[6] == 't');
    assert(".outputs?['statuscode']"@[7] == 's');
    assert(".outputs?['statuscode']"@[8] == '?');
    assert(".outputs?['statuscode']"@[9] == '[');
    assert(".outputs?['statuscode']"@[10] == '\'');
    assert(".outputs?['statuscode']"@[11] == 's');
    assert(".outputs?['statuscode']"@[12] == 't');
    assert(".outputs?['statuscode']"@[13] == 'a');
    assert(".outputs?['statuscode']"@[14] == 't');
    assert(".outputs?['statuscode']"@[15] == 'u');
    assert(".outputs?['statuscode']"@[16] == 's');
    assert(".outputs?['statuscode']"@[17] == 'c');
    assert(".outputs?['statuscode']"@[18] == 'o');
    assert(".outputs?['statuscode']"@[19] == 'd');
    assert(".outputs?['statuscode']"@[20] == 'e');
    assert(".outputs?['statuscode']"@[21] == '\'');
    assert(".outputs?['statuscode']"@[22] == ']');
    assert(".outputs?['statuscode']"@.subrange(1, 8) =~= "outputs"@);
}

proof fn lemma_pattern_4()
    ensures
        has_no_space("['outputs'].statuscode"@),
        "['outputs'].statuscode"@.len() >= 9,
        "['outputs'].statuscode"@.subrange(2, 9) == "outputs"@,
{
    reveal_strlit("['outputs'].statuscode");
    reveal_strlit("outputs");
    assert("['outputs'].statuscode"@.len() == 22);
    assert("['outputs'].statuscode"@[0] == '[');
    assert("['outputs'].statuscode"@[1] == '\'');
    assert("['outputs'].statuscode"@[2] == 'o');
    assert("['outputs'].statuscode"@[3] == 'u');
    assert("['outputs'].statuscode"@[4] == 't');
    assert("['outputs'].statuscode"@[5] == 'p');
    assert("['outputs'].statuscode"@[6] == 'u');
    assert("['outputs'].statuscode"@[7] == 't');
    assert("['outputs'].statuscode"@[8] == 's');
    assert("['outputs'].statuscode"@[9] == '\'');
    assert("['outputs'].statuscode"@[10] == ']');
    assert("['outputs'].statuscode"@[11] == '.');
    assert("['outputs'].statuscode"@[12] == 's');
    assert("['outputs'].statuscode"@[13] == 't');
    assert("['outputs'].statuscode"@[14] == 'a');
    assert("['outputs'].statuscode"@[15] == 't');
    assert("['outputs'].statuscode"@[16] == 'u');
    assert("['outputs'].statuscode"@[17] == 's');
    assert("['outputs'].statuscode"@[18] == 'c');
    assert("['outputs'].statuscode"@[19] == 'o');
    assert("['outputs'].statuscode"@[20] == 'd');
    assert("['outputs'].statuscode"@[21] == 'e');
    assert("['outputs'].statuscode"@.subrange(2, 9) =~= "outputs"@);
}

proof fn lemma_pattern_5()
    ensures
        has_no_space("['outputs']?.statuscode"@),
        "['outputs']?.statuscode"@.len() >= 9,
        "['outputs']?.statuscode"@.subrange(2, 9) == "outputs"@,
{
    reveal_strlit("['outputs']?.statuscode");
    reveal_strlit("outputs");
    assert("['outputs']?.statuscode"@.len() == 23);
    assert("['outputs']?.statuscode"@[0] == '[');
    assert("['outputs']?.statuscode"@[1] == '\'');
    assert("['outputs']?.statuscode"@[2] == 'o');
    assert("['outputs']?.statuscode"@[3] == 'u');
    assert("['outputs']?.statuscode"@[4] == 't');
    assert("['outputs']?.statuscode"@[5] == 'p');
    assert("['outputs']?.statuscode"@[6] == 'u');
    assert("['outputs']?.statuscode"@[7] == 't');
    assert("['outputs']?.statuscode"@[8] == 's');
    assert("['outputs']?.statuscode"@[9] == '\'');
    assert("['outputs']?.statuscode"@[10] == ']');
    assert("['outputs']?.statuscode"@[11] == '?');
    assert("['outputs']?.statuscode"@[12] == '.');
    assert("['outputs']?.statuscode"@[13] == 's');
    assert("['outputs']?.statuscode"@[14] == 't');
    assert("['outputs']?.statuscode"@[15] == 'a');
    assert("['outputs']?.statuscode"@[16] == 't');
    assert("['outputs']?.statuscode"@[17] == 'u');
    assert("['outputs']?.statuscode"@[18] == 's');
    assert("['outputs']?.statuscode"@[19] == 'c');
    assert("['outputs']?.statuscode"@[20] == 'o');
    assert("['outputs']?.statuscode"@[21] == 'd');
    assert("['outputs']?.statuscode"@[22] == 'e');
    assert("['outputs']?.statuscode"@.subrange(2, 9) =~= "outputs"@);
}

proof fn lemma_pattern_6()
    ensures
        has_no_space("['outputs']['statuscode']"@),
        "['outputs']['statuscode']"@.len() >= 9,
        "['outputs']['statuscode']"@.subrange(2, 9) == "outputs"@,
{
    reveal_strlit("['outputs']['statuscode']");
    reveal_strlit("outputs");
    assert("['outputs']['statuscode']"@.len() == 25);
    assert("['outputs']['statuscode']"@[0] == '[');
    assert("['outputs']['statuscode']"@[1] == '\'');
    assert("['outputs']['statuscode']"@[2] == 'o');
    assert("['outputs']['statuscode']"@[3] == 'u');
    assert("['outputs']['statuscode']"@[4] == 't');
    assert("['outputs']['statuscode']"@[5] == 'p');
    assert("['outputs']['statuscode']"@[6] == 'u');
    assert("['outputs']['statuscode']"@[7] == 't');
    assert("['outputs']['statuscode']"@[8] == 's');
    assert("['outputs']['statuscode']"@[9] == '\'');
    assert("['outputs']['statuscode']"@[10] == ']');
    assert("['outputs']['statuscode']"@[11] == '[');
    assert("['outputs']['statuscode']"@[12] == '\'');
    assert("['outputs']['statuscode']"@[13] == 's');
    assert("['outputs']['statuscode']"@[14] == 't');
    assert("['outputs']['statuscode']"@[15] == 'a');
    assert("['outputs']['statuscode']"@[16] == 't');
    assert("['outputs']['statuscode']"@[17] == 'u');
    assert("['outputs']['statuscode']"@[18] == 's');
    assert("['outputs']['statuscode']"@[19] == 'c');
    assert("['outputs']['statuscode']"@[20] == 'o');
    assert("['outputs']['statuscode']"@[21] == 'd');
    assert("['outputs']['statuscode']"@[22] == 'e');
    assert("['outputs']['statuscode']"@[23] == '\'');
    assert("['outputs']['statuscode']"@[24] == ']');
    assert("['outputs']['statuscode']"@.subrange(2, 9) =~= "outputs"@);
}

proof fn lemma_pattern_7()
    ensures
        has_no_space("['outputs']?['statuscode']"@),
        "['outputs']?['statuscode']"@.len() >= 9,
        "['outputs']?['statuscode']"@.subrange(2, 9) == "outputs"@,
{
    reveal_strlit("['outputs']?['statuscode']");
    reveal_strlit("outputs");
    assert("['outputs']?['statuscode']"@.len() == 26);
    assert("['outputs']?['statuscode']"@[0] == '[');
    assert("['outputs']?['statuscode']"@[1] == '\'');
    assert("['outputs']?['statuscode']"@[2] == 'o');
    assert("['outputs']?['statuscode']"@[3] == 'u');
    assert("['outputs']?['statuscode']"@[4] == 't');
    assert("['outputs']?['statuscode']"@[5] == 'p');
    assert("['outputs']?['statuscode']"@[6] == 'u');
    assert("['outputs']?['statuscode']"@[7] == 't');
    assert("['outputs']?['statuscode']"@[8] == 's');
    assert("['outputs']?['statuscode']"@[9] == '\'');
    assert("['outputs']?['statuscode']"@[10] == ']');
    assert("['outputs']?['statuscode']"@[11] == '?');
    assert("['outputs']?['statuscode']"@[12] == '[');
    assert("['outputs']?['statuscode']"@[13] == '\'');
    assert("['outputs']?['statuscode']"@[14] == 's');
    assert("['outputs']?['statuscode']"@[15] == 't');
    assert("['outputs']?['statuscode']"@[16] == 'a');
    assert("['outputs']?['statuscode']"@[17] == 't');
    assert("['outputs']?['statuscode']"@[18] == 'u');
    assert("['outputs']?['statuscode']"@[19] == 's');
    assert("['outputs']?['statuscode']"@[20] == 'c');
    assert("['outputs']?['statuscode']"@[21] == 'o');
    assert("['outputs']?['statuscode']"@[22] == 'd');
    assert("['outputs']?['statuscode']"@[23] == 'e');
    assert("['outputs']?['statuscode']"@[24] == '\'');
    assert("['outputs']?['statuscode']"@[25] == ']');
    assert("['outputs']?['statuscode']"@.subrange(2, 9) =~= "outputs"@);
}

proof fn lemma_pattern_8()
    ensures
        has_no_space(".outputs.headers"@),
        ".outputs.headers"@.len() >= 8,
        ".outputs.headers"@.subrange(1, 8) == "outputs"@,
{
    reveal_strlit(".outputs.headers");
    reveal_strlit("outputs");
    assert(".outputs.headers"@.len() == 16);
    assert(".outputs.headers"@[0] == '.');
    assert(".outputs.headers"@[1] == 'o');
    assert(".outputs.headers"@[2] == 'u');
    assert(".outputs.headers"@[3] == 't');
    assert(".outputs.headers"@[4] == 'p');
    assert(".outputs.headers"@[5] == 'u');
    assert(".outputs.headers"@[6] == 't');
    assert(".outputs.headers"@[7] == 's');
    assert(".outputs.headers"@[8] == '.');
    assert(".outputs.headers"@[9] == 'h');
    assert(".outputs.headers"@[10] == 'e');
    assert(".outputs.headers"@[11] == 'a');
    assert(".outputs.headers"@[12] == 'd');
    assert(".outputs.headers"@[13] == 'e');
    assert(".outputs.headers"@[14] == 'r');
    assert(".outputs.headers"@[15] == 's');
    assert(".outputs.headers"@.subrange(1, 8) =~= "outputs"@);
}

proof fn lemma_pattern_9()
    ensures
        has_no_space(".outputs?.headers"@),
        ".outputs?.headers"@.len() >= 8,
        ".outputs?.headers"@.subrange(1, 8) == "outputs"@,
{
    reveal_strlit(".outputs?.headers");
    reveal_strlit("outputs");
    assert(".outputs?.headers"@.len() == 17);
    assert(".outputs?.headers"@[0] == '.');
    assert(".outputs?.headers"@[1] == 'o');
    assert(".outputs?.headers"@[2] == 'u');
    assert(".outputs?.headers"@[3] == 't');
    assert(".outputs?.headers"@[4] == 'p');
    assert(".outputs?.headers"@[5] == 'u');
    assert(".outputs?.headers"@[6] == 't');
    assert(".outputs?.headers"@[7] == 's');
    assert(".outputs?.headers"@[8] == '?');
    assert(".outputs?.headers"@[9] == '.');
    assert(".outputs?.headers"@[10] == 'h');
    assert(".outputs?.headers"@[11] == 'e');
    assert(".outputs?.headers"@[12] == 'a');
    assert(".outputs?.headers"@[13] == 'd');
    assert(".outputs?.headers"@[14] == 'e');
    assert(".outputs?.headers"@[15] == 'r');
    assert(".outputs?.headers"@[16] == 's');
    assert(".outputs?.headers"@.subrange(1, 8) =~= "outputs"@);
}

proof fn lemma_pattern_10()
    ensures
        has_no_space(".outputs['headers']"@),
        ".outputs['headers']"@.len() >= 8,
        ".outputs['headers']"@.subrange(1, 8) == "outputs"@,
{
    reveal_strlit(".outputs['headers']");
    reveal_strlit("outputs");
    assert(".outputs['headers']"@.len() == 19);
    assert(".outputs['headers']"@[0] == '.');
    assert(".outputs['headers']"@[1] == 'o');
    assert(".outputs['headers']"@[2] == 'u');
    assert(".outputs['headers']"@[3] == 't');
    assert(".outputs['headers']"@[4] == 'p');
    assert(".outputs['headers']"@[5] == 'u');
    assert(".outputs['headers']"@[6] == 't');
    assert(".outputs['headers']"@[7] == 's');
    assert(".outputs['headers']"@[8] == '[');
    assert(".outputs['headers']"@[9] == '\'');
    assert(".outputs['headers']"@[10] == 'h');
    assert(".outputs['headers']"@[11] == 'e');
    assert(".outputs['headers']"@[12] == 'a');
    assert(".outputs['headers']"@[13] == 'd');
    assert(".outputs['headers']"@[14] == 'e');
    assert(".outputs['headers']"@[15] == 'r');
    assert(".outputs['headers']"@[16] == 's');
    assert(".outputs['headers']"@[17] == '\'');
    assert(".outputs['headers']"@[18] == ']');
    assert(".outputs['headers']"@.subrange(1, 8) =~= "outputs"@);
}

proof fn lemma_pattern_11()
    ensures
        has_no_space(".outputs?['headers']"@),
        ".outputs?['headers']"@.len() >= 8,
        ".outputs?['headers']"@.subrange(1, 8) == "outputs"@,
{
    reveal_strlit(".outputs?['headers']");
    reveal_strlit("outputs");
    assert(".outputs?['headers']"@.len() == 20);
    assert(".outputs?['headers']"@[0] == '.');
    assert(".outputs?['headers']"@[1] == 'o');
    assert(".outputs?['headers']"@[2] == 'u');
    assert(".outputs?['headers']"@[3] == 't');
    assert(".outputs?['headers']"@[4] == 'p');
    assert(".outputs?['headers']"@[5] == 'u');
    assert(".outputs?['headers']"@[6] == 't');
    assert(".outputs?['headers']"@[7] == 's');
    assert(".outputs?['headers']"@[8] == '?');
    assert(".outputs?['headers']"@[9] == '[');
    assert(".outputs?['headers']"@[10] == '\'');
    assert(".outputs?['headers']"@[11] == 'h');
    assert(".outputs?['headers']"@[12] == 'e');
    assert(".outputs?['headers']"@[13] == 'a');
    assert(".outputs?['headers']"@[14] == 'd');
    assert(".outputs?['headers']"@[15] == 'e');
    assert(".outputs?['headers']"@[16] == 'r');
    assert(".outputs?['headers']"@[17] == 's');
    assert(".outputs?['headers']"@[18] == '\'');
    assert(".outputs?['headers']"@[19] == ']');
    assert(".outputs?['headers']"@.subrange(1, 8) =~= "outputs"@);
}

proof fn lemma_pattern_12()
    ensures
        has_no_space("['outputs'].headers"@),
        "['outputs'].headers"@.len() >= 9,
        "['outputs'].headers"@.subrange(2, 9) == "outputs"@,
{
    reveal_strlit("['outputs'].headers");
    reveal_strlit("outputs");
    assert("['outputs'].headers"@.len() == 19);
    assert("['outputs'].headers"@[0] == '[');
    assert("['outputs'].headers"@[1] == '\'');
    assert("['outputs'].headers"@[2] == 'o');
    assert("['outputs'].headers"@[3] == 'u');
    assert("['outputs'].headers"@[4] == 't');
    assert("['outputs'].headers"@[5] == 'p');
    assert("['outputs'].headers"@[6] == 'u');
    assert("['outputs'].headers"@[7] == 't');
    assert("['outputs'].headers"@[8] == 's');
    assert("['outputs'].headers"@[9] == '\'');
    assert("['outputs'].headers"@[10] == ']');
    assert("['outputs'].headers"@[11] == '.');
    assert("['outputs'].headers"@[12] == 'h');
    assert("['outputs'].headers"@[13] == 'e');
    assert("['outputs'].headers"@[14] == 'a');
    assert("['outputs'].headers"@[15] == 'd');
    assert("['outputs'].headers"@[16] == 'e');
    assert("['outputs'].headers"@[17] == 'r');
    assert("['outputs'].headers"@[18] == 's');
    assert("['outputs'].headers"@.subrange(2, 9) =~= "outputs"@);
}

proof fn lemma_pattern_13()
    ensures
        has_no_space("['outputs']?.headers"@),
        "['outputs']?.headers"@.len() >= 9,
        "['outputs']?.headers"@.subrange(2, 9) == "outputs"@,
{
    reveal_strlit("['outputs']?.headers");
    reveal_strlit("outputs");
    assert("['outputs']?.headers"@.len() == 20);
    assert("['outputs']?.headers"@[0] == '[');
    assert("['outputs']?.headers"@[1] == '\'');
    assert("['outputs']?.headers"@[2] == 'o');
    assert("['outputs']?.headers"@[3] == 'u');
    assert("['outputs']?.headers"@[4] == 't');
    assert("['outputs']?.headers"@[5] == 'p');
    assert("['outputs']?.headers"@[6] == 'u');
    assert("['outputs']?.headers"@[7] == 't');
    assert("['outputs']?.headers"@[8] == 's');
    assert("['outputs']?.headers"@[9] == '\'');
    assert("['outputs']?.headers"@[10] == ']');
    assert("['outputs']?.headers"@[11] == '?');
    assert("['outputs']?.headers"@[12] == '.');
    assert("['outputs']?.headers"@[13] == 'h');
    assert("['outputs']?.headers"@[14] == 'e');
    assert("['outputs']?.headers"@[15] == 'a');
    assert("['outputs']?.headers"@[16] == 'd');
    assert("['outputs']?.headers"@[17] == 'e');
    assert("['outputs']?.headers"@[18] == 'r');
    assert("['outputs']?.headers"@[19] == 's');
    assert("['outputs']?.headers"@.subrange(2, 9) =~= "outputs"@);
}

proof fn lemma_pattern_14()
    ensures
        has_no_space("['outputs']['headers']"@),
        "['outputs']['headers']"@.len() >= 9,
        "['outputs']['headers']"@.subrange(2, 9) == "outputs"@,
{
    reveal_strlit("['outputs']['headers']");
    reveal_strlit("outputs");
    assert("['outputs']['headers']"@.len() == 22);
    assert("['outputs']['headers']"@[0] == '[');
    assert("['outputs']['headers']"@[1] == '\'');
    assert("['outputs']['headers']"@[2] == 'o');
    assert("['outputs']['headers']"@[3] == 'u');
    assert("['outputs']['headers']"@[4] == 't');
    assert("['outputs']['headers']"@[5] == 'p');
    assert("['outputs']['headers']"@[6] == 'u');
    assert("['outputs']['headers']"@[7] == 't');
    assert("['outputs']['headers']"@[8] == 's');
    assert("['outputs']['headers']"@[9] == '\'');
    assert("['outputs']['headers']"@[10] == ']');
    assert("['outputs']['headers']"@[11] == '[');
    assert("['outputs']['headers']"@[12] == '\'');
    assert("['outputs']['headers']"@[13] == 'h');
    assert("['outputs']['headers']"@[14] == 'e');
    assert("['outputs']['headers']"@[15] == 'a');
    assert("['outputs']['headers']"@[16] == 'd');
    assert("['outputs']['headers']"@[17] == 'e');
    assert("['outputs']['headers']"@[18] == 'r');
    assert("['outputs']['headers']"@[19] == 's');
    assert("['outputs']['headers']"@[20] == '\'');
    assert("['outputs']['headers']"@[21] == ']');
    assert("['outputs']['headers']"@.subrange(2, 9) =~= "outputs"@);
}

proof fn lemma_pattern_15()
    ensures
        has_no_space("['outputs']?['headers']"@),
        "['outputs']?['headers']"@.len() >= 9,
        "['outputs']?['headers']"@.subrange(2, 9) == "outputs"@,
{
    reveal_strlit("['outputs']?['headers']");
    reveal_strlit("outputs");
    assert("['outputs']?['headers']"@.len() == 23);
    assert("['outputs']?['headers']"@[0] == '[');
    assert("['outputs']?['headers']"@[1] == '\'');
    assert("['outputs']?['headers']"@[2] == 'o');
    assert("['outputs']?['headers']"@[3] == 'u');
    assert("['outputs']?['headers']"@[4] == 't');
    assert("['outputs']?['headers']"@[5] == 'p');
    assert("['outputs']?['headers']"@[6] == 'u');
    assert("['outputs']?['headers']"@[7] == 't');
    assert("['outputs']?['headers']"@[8] == 's');
    assert("['outputs']?['headers']"@[9] == '\'');
    assert("['outputs']?['headers']"@[10] == ']');
    assert("['outputs']?['headers']"@[11] == '?');
    assert("['outputs']?['headers']"@[12] == '[');
    assert("['outputs']?['headers']"@[13] == '\'');
    assert("['outputs']?['headers']"@[14] == 'h');
    assert("['outputs']?['headers']"@[15] == 'e');
    assert("['outputs']?['headers']"@[16] == 'a');
    assert("['outputs']?['headers']"@[17] == 'd');
    assert("['outputs']?['headers']"@[18] == 'e');
    assert("['outputs']?['headers']"@[19] == 'r');
    assert("['outputs']?['headers']"@[20] == 's');
    assert("['outputs']?['headers']"@[21] == '\'');
    assert("['outputs']?['headers']"@[22] == ']');
    assert("['outputs']?['headers']"@.subrange(2, 9) =~= "outputs"@);
}

} // verus!
