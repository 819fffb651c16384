//! What the helpers of the language are: which namespace each one refers to,
//! and how many arguments it takes.

use vstd::prelude::*;

use crate::text::{decimal, one_of};
use crate::wdl::arity::{
    arguments_of, arity_issues, call_issues, count_from, no_argument_names, one_argument_names,
    two_argument_names, ArgumentIssue, Counting,
};
use crate::wdl::laws::{doubled, lemma_ident_end_at, lemma_literal_reads_back};
use crate::wdl::lex::{
    balanced_end, balanced_from, call_from, first_literal, quoted_end, spaces_end, CallSite,
};
use crate::wdl::references::{
    action_helper_names, reference_of, references_from, references_in_bodies,
};
use crate::wdl::segments::expression_bodies;
use crate::wdl::syntax::{expression_issues, has_plain_suffix, scan_from, text_issues, Scan};
use crate::wdl::value::is_root_expression;
use crate::wdl::{ReferenceKind, ReferenceView};

verus! {

/// A string literal of the language: quotes inside are doubled.
pub open spec fn quoted(text: Seq<char>) -> Seq<char> {
    seq!['\''] + doubled(text, '\'') + seq!['\'']
}

/// String literals, separated by a comma and a space.
pub open spec fn listed(arguments: Seq<Seq<char>>) -> Seq<char>
    decreases arguments.len(),
{
    if arguments.len() == 0 {
        Seq::empty()
    } else if arguments.len() == 1 {
        quoted(arguments[0])
    } else {
        quoted(arguments[0]) + seq![',', ' '] + listed(arguments.skip(1))
    }
}

/// A root expression that calls `name` with string literals.
pub open spec fn root_call(name: Seq<char>, arguments: Seq<Seq<char>>) -> Seq<char> {
    seq!['@'] + name + seq!['('] + listed(arguments) + seq![')']
}

/// A name of a function: letters, digits and `_`, no digit first.
pub open spec fn is_name(name: Seq<char>) -> bool {
    &&& name.len() > 0
    &&& !('0' <= name[0] <= '9')
    &&& forall|i: int|
        0 <= i < name.len() ==> {
            let c = #[trigger] name[i];
            ('a' <= c <= 'z') || ('A' <= c <= 'Z') || ('0' <= c <= '9') || c == '_'
        }
}

/// Literal arguments are counted, closed, and call nothing.
proof fn lemma_listed(e: Seq<char>, at: int, arguments: Seq<Seq<char>>, count: int)
    requires
        0 <= at < e.len(),
        arguments.len() > 0,
        e.skip(at) == listed(arguments) + seq![')'],
    ensures
        count_from(
            e,
            at,
            Counting { stack: seq![')'], count, has_argument: false, closed: false },
        ) == Ok::<int, ArgumentIssue>(count + arguments.len()),
        scan_from(e, at, seq!['('], false, false) == (Scan {
            issues: Seq::empty(),
            countable: true,
        }),
        call_from(e, at) is None,
        balanced_from(e, at, 1, '(', ')') == Some(e.len() as int),
    decreases arguments.len(),
{
    let first = arguments[0];
    let literal = doubled(first, '\'');
    let rest = e.skip(at);
    let tail = if arguments.len() == 1 {
        seq![')']
    } else {
        seq![',', ' '] + listed(arguments.skip(1)) + seq![')']
    };
    assert(rest =~= seq!['\''] + literal + seq!['\''] + tail);
    assert(e[at] == rest[0]);
    assert(e.skip(at + 1) =~= rest.skip(1));
    assert(rest.skip(1) =~= literal + seq!['\''] + tail);
    lemma_literal_reads_back(e, at + 1, first, tail);
    let end = at + 1 + literal.len() + 1;
    assert(quoted_end(e, at + 1) == Some(end));
    assert(e.skip(end) =~= rest.skip(end - at));
    assert(rest.skip(end - at) =~= tail);
    assert(e[end] == tail[0]);
    let state = Counting { stack: seq![')'], count, has_argument: false, closed: false };
    let after = Counting { stack: seq![')'], count, has_argument: true, closed: true };
    assert(count_from(e, at, state) == count_from(e, end, after));
    if arguments.len() == 1 {
        assert(e.len() == end + 1);
        assert(seq!['('].drop_last() =~= Seq::<char>::empty());
        let clean = Scan { issues: Seq::empty(), countable: true };
        assert(scan_from(e, end + 1, Seq::empty(), false, false) == clean);
        assert(scan_from(e, end, seq!['('], false, false) == clean);
        assert(scan_from(e, at, seq!['('], false, false) == clean);
        assert(call_from(e, end + 1) is None);
        assert(call_from(e, end) is None);
    } else {
        let next = arguments.skip(1);
        assert(e[end + 1] == tail[1]);
        assert(e.skip(end + 2) =~= tail.skip(2));
        assert(tail.skip(2) =~= listed(next) + seq![')']);
        assert(listed(next).len() > 0);
        lemma_listed(e, end + 2, next, count + 1);
        let later = Counting {
            stack: seq![')'],
            count: count + 1,
            has_argument: false,
            closed: false,
        };
        assert(count_from(e, end, after) == count_from(e, end + 1, later));
        assert(count_from(e, end + 1, later) == count_from(e, end + 2, later));
        assert(scan_from(e, end, seq!['('], false, false) == scan_from(
            e,
            end + 1,
            seq!['('],
            false,
            false,
        ));
        assert(call_from(e, end + 1) == call_from(e, end + 2));
        assert(call_from(e, end) == call_from(e, end + 1));
        assert(balanced_from(e, end + 1, 1, '(', ')') == balanced_from(e, end + 2, 1, '(', ')'));
        assert(balanced_from(e, end, 1, '(', ')') == balanced_from(e, end + 1, 1, '(', ')'));
    }
}

/// What the scanner makes of a call with literal arguments.
proof fn lemma_root_call(name: Seq<char>, arguments: Seq<Seq<char>>)
    requires
        is_name(name),
    ensures
        is_root_expression(root_call(name, arguments)),
        ({
            let e = root_call(name, arguments).skip(1);
            let open = name.len() as int;
            &&& e == name + seq!['('] + listed(arguments) + seq![')']
            &&& call_from(e, 0) == Some(CallSite { start: 0, end: open, open })
            &&& e.subrange(0, open) == name
            &&& call_from(e, open + 1) is None
            &&& arguments_of(e, open) == Ok::<int, ArgumentIssue>(
                arguments.len() as int,
            )
            &&& scan_from(e, 0, Seq::empty(), false, false) == (Scan {
                issues: Seq::empty(),
                countable: true,
            })
            &&& !has_plain_suffix(e)
        }),
{
    let text = root_call(name, arguments);
    let e = text.skip(1);
    let open = name.len() as int;
    assert(e =~= name + seq!['('] + listed(arguments) + seq![')']);
    assert(text[0] == '@' && text[1] == name[0]);
    assert forall|i: int| 0 <= i < open implies #[trigger] e[i] == name[i] by {}
    assert(e[open] == '(');
    lemma_ident_end_at(e, 1, open);
    assert(spaces_end(e, open) == open);
    assert(spaces_end(e, 0) == 0);
    assert(e.subrange(0, open) =~= name);
    let at = open + 1;
    assert(e.skip(at) =~= listed(arguments) + seq![')']);
    if arguments.len() > 0 {
        lemma_listed(e, at, arguments, 0);
    } else {
        assert(e[at] == ')');
        assert(e.len() == at + 1);
        assert(seq!['('].drop_last() =~= Seq::<char>::empty());
        assert(call_from(e, at + 1) is None);
        assert(scan_from(e, at + 1, Seq::empty(), false, false) == (Scan {
            issues: Seq::empty(),
            countable: true,
        }));
    }
    lemma_scan_name(e, 0, open);
    assert(Seq::<char>::empty().push('(') =~= seq!['(']);
    let clean = Scan { issues: Seq::empty(), countable: true };
    if arguments.len() == 0 {
        assert(scan_from(e, at, seq!['('], false, false) == clean);
    }
    assert(scan_from(e, open, Seq::empty(), false, false) == clean);
    assert(call_from(e, at) is None);
    assert(arguments_of(e, open) == Ok::<int, ArgumentIssue>(arguments.len() as int));
    assert(balanced_end(e, open, '(', ')') == Some(e.len() as int));
}

proof fn lemma_scan_name(e: Seq<char>, i: int, end: int)
    requires
        0 <= i <= end < e.len(),
        forall|k: int|
            i <= k < end ==> {
                let c = #[trigger] e[k];
                ('a' <= c <= 'z') || ('A' <= c <= 'Z') || ('0' <= c <= '9') || c == '_'
            },
    ensures
        scan_from(e, i, Seq::empty(), false, false) == scan_from(
            e,
            end,
            Seq::empty(),
            false,
            false,
        ),
    decreases end - i,
{
    if i < end {
        lemma_scan_name(e, i + 1, end);
    }
}

proof fn lemma_one_argument_names(name: Seq<char>)
    ensures
        one_of(name, one_argument_names()) == (name == "actions"@ || name == "body"@ || name == "iterationIndexes"@ || name == "items"@ || name == "outputs"@ || name == "parameters"@ || name == "result"@ || name == "variables"@ || name == "appsetting"@ || name == "triggerFormDataMultiValues"@ || name == "triggerFormDataValue"@ || name == "triggerMultipartBody"@),
{
    let list = one_argument_names();
    if one_of(name, list) {
        let k = choose|k: int| 0 <= k < list.len() && list[k] == name;
        assert(list[k] == name);
    }
    assert(list[0] == "actions"@);
    assert(list[1] == "body"@);
    assert(list[2] == "iterationIndexes"@);
    assert(list[3] == "items"@);
    assert(list[4] == "outputs"@);
    assert(list[5] == "parameters"@);
    assert(list[6] == "result"@);
    assert(list[7] == "variables"@);
    assert(list[8] == "appsetting"@);
    assert(list[9] == "triggerFormDataMultiValues"@);
    assert(list[10] == "triggerFormDataValue"@);
    assert(list[11] == "triggerMultipartBody"@);
}

proof fn lemma_two_argument_names(name: Seq<char>)
    ensures
        one_of(name, two_argument_names()) == (name == "formDataMultiValues"@ || name == "formDataValue"@ || name == "multipartBody"@),
{
    let list = two_argument_names();
    if one_of(name, list) {
        let k = choose|k: int| 0 <= k < list.len() && list[k] == name;
        assert(list[k] == name);
    }
    assert(list[0] == "formDataMultiValues"@);
    assert(list[1] == "formDataValue"@);
    assert(list[2] == "multipartBody"@);
}

proof fn lemma_no_argument_names(name: Seq<char>)
    ensures
        one_of(name, no_argument_names()) == (name == "action"@ || name == "item"@ || name == "listCallbackUrl"@ || name == "trigger"@ || name == "triggerBody"@ || name == "triggerOutputs"@ || name == "triggerbody"@ || name == "workflow"@),
{
    let list = no_argument_names();
    if one_of(name, list) {
        let k = choose|k: int| 0 <= k < list.len() && list[k] == name;
        assert(list[k] == name);
    }
    assert(list[0] == "action"@);
    assert(list[1] == "item"@);
    assert(list[2] == "listCallbackUrl"@);
    assert(list[3] == "trigger"@);
    assert(list[4] == "triggerBody"@);
    assert(list[5] == "triggerOutputs"@);
    assert(list[6] == "triggerbody"@);
    assert(list[7] == "workflow"@);
}

proof fn lemma_action_helper_names(name: Seq<char>)
    ensures
        one_of(name, action_helper_names()) == (name == "actions"@ || name == "body"@ || name == "formDataMultiValues"@ || name == "formDataValue"@ || name == "multipartBody"@ || name == "outputs"@),
{
    let list = action_helper_names();
    if one_of(name, list) {
        let k = choose|k: int| 0 <= k < list.len() && list[k] == name;
        assert(list[k] == name);
    }
    assert(list[0] == "actions"@);
    assert(list[1] == "body"@);
    assert(list[2] == "formDataMultiValues"@);
    assert(list[3] == "formDataValue"@);
    assert(list[4] == "multipartBody"@);
    assert(list[5] == "outputs"@);
}

/// The names of the helpers are all different.
proof fn lemma_helper_names_differ(name: Seq<char>)
    ensures
        (name == "actions"@ || name == "body"@ || name == "iterationIndexes"@ || name == "items"@ || name == "outputs"@ || name == "parameters"@ || name == "result"@ || name == "variables"@ || name == "appsetting"@ || name == "triggerFormDataMultiValues"@ || name == "triggerFormDataValue"@ || name == "triggerMultipartBody"@) ==> !(name == "formDataMultiValues"@ || name == "formDataValue"@ || name == "multipartBody"@ || name == "action"@ || name == "item"@ || name == "listCallbackUrl"@ || name == "trigger"@ || name == "triggerBody"@ || name == "triggerOutputs"@ || name == "triggerbody"@ || name == "workflow"@ || name == "concat"@),
        (name == "formDataMultiValues"@ || name == "formDataValue"@ || name == "multipartBody"@) ==> !(name == "action"@ || name == "item"@ || name == "listCallbackUrl"@ || name == "trigger"@ || name == "triggerBody"@ || name == "triggerOutputs"@ || name == "triggerbody"@ || name == "workflow"@ || name == "concat"@),
        (name == "action"@ || name == "item"@ || name == "listCallbackUrl"@ || name == "trigger"@ || name == "triggerBody"@ || name == "triggerOutputs"@ || name == "triggerbody"@ || name == "workflow"@) ==> !(name == "concat"@),
        (name == "actions"@ || name == "body"@ || name == "formDataMultiValues"@ || name == "formDataValue"@ || name == "multipartBody"@ || name == "outputs"@) ==> !(name == "result"@ || name == "iterationIndexes"@ || name == "variables"@ || name == "parameters"@ || name == "items"@ || name == "item"@),
        name == "result"@ ==> !(name == "iterationIndexes"@ || name == "variables"@ || name == "parameters"@ || name == "items"@ || name == "item"@),
        name == "iterationIndexes"@ ==> !(name == "variables"@ || name == "parameters"@ || name == "items"@ || name == "item"@),
        name == "variables"@ ==> !(name == "parameters"@ || name == "items"@ || name == "item"@),
        name == "parameters"@ ==> !(name == "items"@ || name == "item"@),
        name == "items"@ ==> !(name == "item"@),
{
    reveal_strlit("actions");
    reveal_strlit("body");
    reveal_strlit("iterationIndexes");
    reveal_strlit("items");
    reveal_strlit("outputs");
    reveal_strlit("parameters");
    reveal_strlit("result");
    reveal_strlit("variables");
    reveal_strlit("appsetting");
    reveal_strlit("triggerFormDataMultiValues");
    reveal_strlit("triggerFormDataValue");
    reveal_strlit("triggerMultipartBody");
    reveal_strlit("formDataMultiValues");
    reveal_strlit("formDataValue");
    reveal_strlit("multipartBody");
    reveal_strlit("action");
    reveal_strlit("item");
    reveal_strlit("listCallbackUrl");
    reveal_strlit("trigger");
    reveal_strlit("triggerBody");
    reveal_strlit("triggerOutputs");
    reveal_strlit("triggerbody");
    reveal_strlit("workflow");
    reveal_strlit("concat");
    assert("actions"@.len() == 7 && "actions"@[0] == 'a');
    assert("body"@.len() == 4 && "body"@[0] == 'b');
    assert("iterationIndexes"@.len() == 16 && "iterationIndexes"@[0] == 'i');
    assert("items"@.len() == 5 && "items"@[0] == 'i');
    assert("outputs"@.len() == 7 && "outputs"@[0] == 'o');
    assert("parameters"@.len() == 10 && "parameters"@[0] == 'p');
    assert("result"@.len() == 6 && "result"@[0] == 'r');
    assert("variables"@.len() == 9 && "variables"@[0] == 'v');
    assert("appsetting"@.len() == 10 && "appsetting"@[0] == 'a');
    assert("triggerFormDataMultiValues"@.len() == 26 && "triggerFormDataMultiValues"@[0] == 't');
    assert("triggerFormDataValue"@.len() == 20 && "triggerFormDataValue"@[0] == 't' && "triggerFormDataValue"@[7] == 'F');
    assert("triggerMultipartBody"@.len() == 20 && "triggerMultipartBody"@[0] == 't' && "triggerMultipartBody"@[7] == 'M');
    assert("formDataMultiValues"@.len() == 19 && "formDataMultiValues"@[0] == 'f');
    assert("formDataValue"@.len() == 13 && "formDataValue"@[0] == 'f');
    assert("multipartBody"@.len() == 13 && "multipartBody"@[0] == 'm');
    assert("action"@.len() == 6 && "action"@[0] == 'a');
    assert("item"@.len() == 4 && "item"@[0] == 'i');
    assert("listCallbackUrl"@.len() == 15 && "listCallbackUrl"@[0] == 'l');
    assert("trigger"@.len() == 7 && "trigger"@[0] == 't');
    assert("triggerBody"@.len() == 11 && "triggerBody"@[0] == 't' && "triggerBody"@[7] == 'B');
    assert("triggerOutputs"@.len() == 14 && "triggerOutputs"@[0] == 't');
    assert("triggerbody"@.len() == 11 && "triggerbody"@[0] == 't' && "triggerbody"@[7] == 'b');
    assert("workflow"@.len() == 8 && "workflow"@[0] == 'w');
    assert("concat"@.len() == 6 && "concat"@[0] == 'c');
}

/// How the small numbers are written.
proof fn lemma_small_numbers()
    ensures
        decimal(0) == "0"@,
        decimal(1) == "1"@,
        decimal(2) == "2"@,
        "' expects "@ + "0"@ + " argument(s), found "@ == "' expects 0 argument(s), found "@,
        "' expects "@ + "1"@ + " argument(s), found "@ == "' expects 1 argument(s), found "@,
        "' expects "@ + "2"@ + " argument(s), found "@ == "' expects 2 argument(s), found "@,
        "' expects at least "@ + "2"@ + " argument(s), found "@
            == "' expects at least 2 argument(s), found "@,
{
    reveal_strlit("0");
    reveal_strlit("1");
    reveal_strlit("2");
    reveal_strlit("' expects ");
    reveal_strlit("' expects at least ");
    reveal_strlit(" argument(s), found ");
    reveal_strlit("' expects 0 argument(s), found ");
    reveal_strlit("' expects 1 argument(s), found ");
    reveal_strlit("' expects 2 argument(s), found ");
    reveal_strlit("' expects at least 2 argument(s), found ");
    assert(decimal(0) =~= "0"@);
    assert(decimal(1) =~= "1"@);
    assert(decimal(2) =~= "2"@);
    assert("' expects "@ + "0"@ + " argument(s), found "@ =~= "' expects 0 argument(s), found "@);
    assert("' expects "@ + "1"@ + " argument(s), found "@ =~= "' expects 1 argument(s), found "@);
    assert("' expects "@ + "2"@ + " argument(s), found "@ =~= "' expects 2 argument(s), found "@);
    assert("' expects at least "@ + "2"@ + " argument(s), found "@
        =~= "' expects at least 2 argument(s), found "@);
}

/// The number of arguments that a helper takes is fixed by its name: a call
/// with that many literals has no syntax issue, and a call with any other
/// number has one. A function that is none of these takes any number.
pub proof fn law_helpers_take_their_arguments(name: Seq<char>, arguments: Seq<Seq<char>>)
    requires
        is_name(name),
    ensures
        ({
            let issues = text_issues(root_call(name, arguments));
            let n = arguments.len();
            let none = name == "action"@ || name == "item"@ || name == "listCallbackUrl"@ || name
                == "trigger"@ || name == "triggerBody"@ || name == "triggerOutputs"@ || name
                == "triggerbody"@ || name == "workflow"@;
            let one = name == "actions"@ || name == "body"@ || name == "iterationIndexes"@ || name
                == "items"@ || name == "outputs"@ || name == "parameters"@ || name == "result"@
                || name == "variables"@ || name == "appsetting"@ || name
                == "triggerFormDataMultiValues"@ || name == "triggerFormDataValue"@ || name
                == "triggerMultipartBody"@;
            let two = name == "formDataMultiValues"@ || name == "formDataValue"@ || name
                == "multipartBody"@;
            &&& none ==> if n == 0 {
                issues.len() == 0
            } else {
                issues == seq![
                    "WDL function '"@ + name + "' expects 0 argument(s), found "@ + decimal(
                        n as int,
                    ),
                ]
            }
            &&& one ==> if n == 1 {
                issues.len() == 0
            } else {
                issues == seq![
                    "WDL function '"@ + name + "' expects 1 argument(s), found "@ + decimal(
                        n as int,
                    ),
                ]
            }
            &&& two ==> if n == 2 {
                issues.len() == 0
            } else {
                issues == seq![
                    "WDL function '"@ + name + "' expects 2 argument(s), found "@ + decimal(
                        n as int,
                    ),
                ]
            }
            &&& name == "concat"@ ==> if n >= 2 {
                issues.len() == 0
            } else {
                issues == seq![
                    "WDL function '"@ + name + "' expects at least 2 argument(s), found "@
                        + decimal(n as int),
                ]
            }
            &&& !none && !one && !two && name != "concat"@ ==> issues.len() == 0
        }),
{
    let text = root_call(name, arguments);
    let e = text.skip(1);
    let open = name.len() as int;
    lemma_root_call(name, arguments);
    lemma_one_argument_names(name);
    lemma_two_argument_names(name);
    lemma_no_argument_names(name);
    lemma_helper_names_differ(name);
    lemma_small_numbers();
    assert(arity_issues(e, open + 1) =~= Seq::empty());
    assert(arity_issues(e, 0) =~= call_issues(e, name, open));
    assert(expression_issues(e) =~= call_issues(e, name, open));
    let n = arguments.len() as int;
    let start = "WDL function '"@ + name;
    assert(start + "' expects "@ + "0"@ + " argument(s), found "@ =~= start
        + "' expects 0 argument(s), found "@);
    assert(start + "' expects "@ + "1"@ + " argument(s), found "@ =~= start
        + "' expects 1 argument(s), found "@);
    assert(start + "' expects "@ + "2"@ + " argument(s), found "@ =~= start
        + "' expects 2 argument(s), found "@);
    assert(start + "' expects at least "@ + "2"@ + " argument(s), found "@ =~= start
        + "' expects at least 2 argument(s), found "@);
}

/// What a helper refers to is fixed by its name: the first of its literal
/// arguments names an action, a scope, an `Until` loop, a variable, a parameter
/// or a loop. `item()` refers to the current item, and no other function refers
/// to anything. A name that begins with a quote is left out: two quotes in
/// front read as a literal whose quotes a template has doubled.
pub proof fn law_helpers_refer_to_their_namespace(name: Seq<char>, arguments: Seq<Seq<char>>)
    requires
        is_name(name),
        arguments.len() > 0 ==> arguments[0].len() > 0 && arguments[0][0] != '\'',
    ensures
        ({
            let references = references_in_bodies(
                expression_bodies(root_call(name, arguments)),
            );
            let action = name == "actions"@ || name == "body"@ || name == "formDataMultiValues"@ || name == "formDataValue"@ || name == "multipartBody"@ || name == "outputs"@;
            let named = action || name == "result"@ || name == "iterationIndexes"@ || name == "variables"@ || name == "parameters"@ || name == "items"@;
            &&& arguments.len() > 0 && action ==> references == seq![
                ReferenceView { kind: ReferenceKind::Action, name: arguments[0] },
            ]
            &&& arguments.len() > 0 && name == "result"@ ==> references == seq![
                ReferenceView { kind: ReferenceKind::ScopedAction, name: arguments[0] },
            ]
            &&& arguments.len() > 0 && name == "iterationIndexes"@ ==> references == seq![
                ReferenceView { kind: ReferenceKind::UntilLoop, name: arguments[0] },
            ]
            &&& arguments.len() > 0 && name == "variables"@ ==> references == seq![
                ReferenceView { kind: ReferenceKind::Variable, name: arguments[0] },
            ]
            &&& arguments.len() > 0 && name == "parameters"@ ==> references == seq![
                ReferenceView { kind: ReferenceKind::Parameter, name: arguments[0] },
            ]
            &&& arguments.len() > 0 && name == "items"@ ==> references == seq![
                ReferenceView { kind: ReferenceKind::Item, name: arguments[0] },
            ]
            &&& arguments.len() == 0 && named ==> references.len() == 0
            &&& name == "item"@ ==> references == seq![
                ReferenceView { kind: ReferenceKind::CurrentItem, name: Seq::empty() },
            ]
            &&& !named && name != "item"@ ==> references.len() == 0
        }),
{
    let text = root_call(name, arguments);
    let e = text.skip(1);
    let open = name.len() as int;
    lemma_root_call(name, arguments);
    lemma_action_helper_names(name);
    lemma_helper_names_differ(name);
    let bodies = expression_bodies(text);
    assert(bodies =~= seq![e]);
    assert(bodies.drop_last() =~= Seq::empty());
    assert(references_in_bodies(bodies.drop_last()) =~= Seq::empty());
    assert(references_from(e, open + 1) =~= Seq::empty());
    assert(references_in_bodies(bodies) =~= reference_of(e, name, open));
    let at = open + 1;
    assert(e.skip(at) =~= listed(arguments) + seq![')']);
    assert(e[at] == e.skip(at)[0]);
    if arguments.len() > 0 {
        let first = arguments[0];
        let literal = doubled(first, '\'');
        let tail = if arguments.len() == 1 {
            seq![')']
        } else {
            seq![',', ' '] + listed(arguments.skip(1)) + seq![')']
        };
        assert(e.skip(at) =~= seq!['\''] + literal + seq!['\''] + tail);
        assert(e.skip(at + 1) =~= literal + seq!['\''] + tail);
        lemma_literal_reads_back(e, at + 1, first, tail);
        assert(literal[0] == first[0]);
        assert(e[at + 1] == e.skip(at + 1)[0]);
        assert(spaces_end(e, at) == at);
        assert(first_literal(e, at) == Some(first));
    } else {
        assert(listed(arguments) =~= Seq::empty());
        assert(e[at] == ')');
        assert(spaces_end(e, at) == at);
        assert(first_literal(e, at) is None);
    }
}

} // verus!
