//! `operationOptions`: a list of options in one string.
//!
//! Each option makes sense on some action or trigger types only, and some
//! conflict with the settings under `runtimeConfiguration.concurrency`.

use vstd::prelude::*;

use crate::diagnostic::{findings, Diagnostic, Finding};
use crate::json::{as_string, text_of, Document, Node};
use crate::shape::arm_boundary::{authored, get_authored, get_present, present};
use crate::shape::dynamic_wdl::{wdl_string_is_full_expression, wdl_string_may_match_exact};
use crate::shape::node_type::{
    is_foreach_action, node_type_is, node_type_is_one_of, type_is, type_is_one_of,
};
use crate::shape::report::{report_context, report_value, wrong_context, wrong_value};
use crate::text::{chars_of, contains, names, string_of_range, text2, text4, text_eq, texts};
use crate::wdl::value::{classified, may_match, Classified, WdlStringValue};
use crate::workflow::{stateless, Workflow};
use crate::wdl::lex::{char_at, holds_after, is_space, space};
use crate::wdl::segments::{body_end, find_interpolation_end};

verus! {

broadcast use crate::diagnostic::group_findings;

pub open spec fn disable_async_type_names() -> Seq<Seq<char>> {
    seq!["ApiConnection"@, "Http"@, "Response"@]
}

fn disable_async_type_list() -> (list: Vec<&'static str>)
    ensures
        names(list@) == disable_async_type_names(),
{
    let list = vec!["ApiConnection", "Http", "Response"];
    assert(names(list@) =~= disable_async_type_names());
    list
}

pub open spec fn suppress_headers_type_names() -> Seq<Seq<char>> {
    seq!["ApiManagement"@, "Function"@, "Http"@]
}

fn suppress_headers_type_list() -> (list: Vec<&'static str>)
    ensures
        names(list@) == suppress_headers_type_names(),
{
    let list = vec!["ApiManagement", "Function", "Http"];
    assert(names(list@) =~= suppress_headers_type_names());
    list
}

pub open spec fn authorization_headers_type_names() -> Seq<Seq<char>> {
    seq!["Request"@, "HttpWebhook"@]
}

fn authorization_headers_type_list() -> (list: Vec<&'static str>)
    ensures
        names(list@) == authorization_headers_type_names(),
{
    let list = vec!["Request", "HttpWebhook"];
    assert(names(list@) =~= authorization_headers_type_names());
    list
}

pub open spec fn action_option_names() -> Seq<Seq<char>> {
    seq![
        "DisableAsyncPattern"@,
        "FailWhenLimitsReached"@,
        "Sequential"@,
        "SuppressWorkflowHeaders"@,
    ]
}

fn action_option_list() -> (list: Vec<&'static str>)
    ensures
        names(list@) == action_option_names(),
{
    let list = vec![
        "DisableAsyncPattern",
        "FailWhenLimitsReached",
        "Sequential",
        "SuppressWorkflowHeaders",
    ];
    assert(names(list@) =~= action_option_names());
    list
}

pub open spec fn trigger_option_names() -> Seq<Seq<char>> {
    seq![
        "IncludeAuthorizationHeadersInOutputs"@,
        "SingleInstance"@,
        "SuppressWorkflowHeadersOnResponse"@,
    ]
}

fn trigger_option_list() -> (list: Vec<&'static str>)
    ensures
        names(list@) == trigger_option_names(),
{
    let list = vec![
        "IncludeAuthorizationHeadersInOutputs",
        "SingleInstance",
        "SuppressWorkflowHeadersOnResponse",
    ];
    assert(names(list@) =~= trigger_option_names());
    list
}

pub open spec fn is_separator(c: char) -> bool {
    c == ',' || is_space(c)
}

/// The token that began at `start` and ends before `end`, if there is one.
pub open spec fn token_between(text: Seq<char>, start: Option<int>, end: int) -> Seq<Seq<char>> {
    match start {
        Some(from) => if 0 <= from < end <= text.len() { seq![
            text.subrange(from, end)
        ] } else { Seq::empty() },
        None => Seq::empty(),
    }
}

/// The tokens of an option list from `i` on, separated by commas and
/// whitespace; an interpolation belongs to one token, whatever stands in it.
pub open spec fn tokens_from(text: Seq<char>, i: int, start: Option<int>) -> Seq<Seq<char>>
    decreases text.len() - i,
{
    let begun = if start is Some { start } else { Some(i) };
    if i < 0 || i >= text.len() {
        token_between(text, start, text.len() as int)
    } else if text[i] == '@' && char_at(text, i + 1, '@') {
        tokens_from(text, i + 2, begun)
    } else if text[i] == '@' && char_at(text, i + 1, '{') {
        match body_end(text, i + 2, false, 1) {
            Some(end) => if i < end < text.len() {
                tokens_from(text, end + 1, begun)
            } else {
                Seq::empty()
            },
            None => token_between(text, begun, text.len() as int),
        }
    } else if is_separator(text[i]) {
        token_between(text, start, i) + tokens_from(text, i + 1, None)
    } else {
        tokens_from(text, i + 1, begun)
    }
}

/// The tokens of an option list.
pub open spec fn option_tokens(text: Seq<char>) -> Seq<Seq<char>> {
    tokens_from(text, 0, None)
}

/// `expected` stands in an option list as a literal token. A single expression
/// has none.
pub open spec fn option_enabled(options: Seq<char>, expected: Seq<char>) -> bool {
    !(classified(options) is FullExpression) && option_tokens(options).contains(expected)
}

/// The options of a node that can be checked: its `operationOptions`, unless
/// it is a template expression or a single expression.
pub open spec fn listed_options(value: &Node, file: &Document) -> Option<(Node, Seq<char>)> {
    match authored(file, value, "operationOptions"@) {
        Some(options) => match text_of(&options) {
            Some(text) => if classified(text) is FullExpression { None } else { Some(
                (options, text),
            ) },
            None => None,
        },
        None => None,
    }
}

/// The options that a node with this label may have.
pub open spec fn allowed_options(label: Seq<char>) -> Seq<Seq<char>> {
    if label == "trigger"@ { trigger_option_names() } else { action_option_names() }
}

/// Why a literal option does not belong on this node.
pub open spec fn misplaced_option(
    value: &Node,
    label: Seq<char>,
    option: Seq<char>,
    workflow: &Workflow,
) -> Option<Seq<char>> {
    if label == "action"@ && option == "Sequential"@ && !type_is(value, "Foreach"@) {
        Some("action operationOptions Sequential is only supported on Foreach actions"@)
    } else if label == "action"@ && option == "DisableAsyncPattern"@ && !type_is_one_of(
        value,
        disable_async_type_names(),
    ) {
        Some(
            "action operationOptions DisableAsyncPattern is only supported on ApiConnection, Http, and Response actions"@,
        )
    } else if label == "action"@ && option == "SuppressWorkflowHeaders"@ && !type_is_one_of(
        value,
        suppress_headers_type_names(),
    ) {
        Some(
            "action operationOptions SuppressWorkflowHeaders is only supported on ApiManagement, Function, and Http actions"@,
        )
    } else if label == "action"@ && option == "FailWhenLimitsReached"@ && !type_is(
        value,
        "Until"@,
    ) {
        Some("action operationOptions FailWhenLimitsReached is only supported on Until actions"@)
    } else if label == "trigger"@ && option == "SingleInstance"@ && stateless(workflow) {
        Some("trigger operationOptions SingleInstance is not supported in Stateless workflows"@)
    } else if label == "trigger"@ && option == "SuppressWorkflowHeadersOnResponse"@ && !type_is_one_of(
        value,
        authorization_headers_type_names(),
    ) {
        Some(
            "trigger operationOptions SuppressWorkflowHeadersOnResponse is only supported on Request and HttpWebhook triggers"@,
        )
    } else if label == "trigger"@ && option == "IncludeAuthorizationHeadersInOutputs"@ && !type_is_one_of(
        value,
        authorization_headers_type_names(),
    ) {
        Some(
            "trigger operationOptions IncludeAuthorizationHeadersInOutputs is only supported on Request and HttpWebhook triggers"@,
        )
    } else {
        None
    }
}

fn operation_option_context(
    value: &Node,
    label: &str,
    option: &str,
    workflow: &Workflow,
) -> (message: Option<&'static str>)
    ensures
        match message {
            Some(text) => misplaced_option(value, label@, option@, workflow) == Some(text@),
            None => misplaced_option(value, label@, option@, workflow) is None,
        },
{
    let action = text_eq(label, "action");
    let trigger = text_eq(label, "trigger");
    if action && text_eq(option, "Sequential") && !is_foreach_action(value) {
        Some("action operationOptions Sequential is only supported on Foreach actions")
    } else if action && text_eq(option, "DisableAsyncPattern") && !node_type_is_one_of(
        value,
        disable_async_type_list().as_slice(),
    ) {
        Some(
            "action operationOptions DisableAsyncPattern is only supported on ApiConnection, Http, and Response actions",
        )
    } else if action && text_eq(option, "SuppressWorkflowHeaders") && !node_type_is_one_of(
        value,
        suppress_headers_type_list().as_slice(),
    ) {
        Some(
            "action operationOptions SuppressWorkflowHeaders is only supported on ApiManagement, Function, and Http actions",
        )
    } else if action && text_eq(option, "FailWhenLimitsReached") && !node_type_is(value, "Until") {
        Some("action operationOptions FailWhenLimitsReached is only supported on Until actions")
    } else if trigger && text_eq(option, "SingleInstance") && workflow.is_stateless() {
        Some("trigger operationOptions SingleInstance is not supported in Stateless workflows")
    } else if trigger && text_eq(option, "SuppressWorkflowHeadersOnResponse") && !node_type_is_one_of(
        value,
        authorization_headers_type_list().as_slice(),
    ) {
        Some(
            "trigger operationOptions SuppressWorkflowHeadersOnResponse is only supported on Request and HttpWebhook triggers",
        )
    } else if trigger && text_eq(option, "IncludeAuthorizationHeadersInOutputs") && !node_type_is_one_of(
        value,
        authorization_headers_type_list().as_slice(),
    ) {
        Some(
            "trigger operationOptions IncludeAuthorizationHeadersInOutputs is only supported on Request and HttpWebhook triggers",
        )
    } else {
        None
    }
}

fn push_token(tokens: &mut Vec<String>, text: &[char], start: Option<usize>, end: usize)
    requires
        end <= text@.len(),
    ensures
        texts(final(tokens)@) == texts(old(tokens)@)
            + token_between(text@, position(start), end as int),
{
    assert(texts(tokens@) + Seq::<Seq<char>>::empty() =~= texts(tokens@));
    if let Some(from) = start {
        if from < end {
            let token = string_of_range(text, from, end);
            tokens.push(token);
            assert(
                texts(tokens@) =~= texts(old(tokens)@)
                    + seq![text@.subrange(from as int, end as int)]
            );
        }
    }
}

pub open spec fn position(start: Option<usize>) -> Option<int> {
    match start {
        Some(from) => Some(from as int),
        None => None,
    }
}

/// Split an option list into its tokens. Duplicates are kept.
pub fn operation_option_tokens(value: &str) -> (tokens: Vec<String>)
    ensures
        texts(tokens@) == option_tokens(value@),
{
    let chars = chars_of(value);
    let text = chars.as_slice();
    let length: usize = text.len();
    let mut tokens: Vec<String> = Vec::new();
    let mut start: Option<usize> = None;
    let mut i: usize = 0;
    assert(texts(tokens@) + option_tokens(value@) =~= option_tokens(value@));
    while i < length
        invariant
            i <= length,
            length == text@.len(),
            text@ == value@,
            start is Some ==> start->Some_0 <= i,
            option_tokens(value@) == texts(tokens@)
                + tokens_from(text@, i as int, position(start)),
        decreases length - i,
    {
        let c = text[i];
        if c == ',' || space(c) {
            let ghost before = texts(tokens@);
            push_token(&mut tokens, text, start, i);
            proof {
                let own = token_between(text@, position(start), i as int);
                let rest = tokens_from(text@, i + 1, None);
                assert(before + (own + rest) =~= before + own + rest);
            }
            start = None;
            i += 1;
            continue;
        }
        if start.is_none() {
            start = Some(i);
        }
        if c == '@' && holds_after(text, i, '@') {
            i += 2;
        } else if c == '@' && holds_after(text, i, '{') {
            match find_interpolation_end(text, i + 2) {
                Some(end) => {
                    i = end + 1;
                },
                None => {
                    push_token(&mut tokens, text, start, length);
                    return tokens;
                },
            }
        } else {
            i += 1;
        }
    }
    push_token(&mut tokens, text, start, length);
    tokens
}

/// True if `expected` is present as a literal token.
pub fn operation_option_enabled(options: &str, expected: &str) -> (holds: bool)
    ensures
        holds == option_enabled(options@, expected@),
{
    if wdl_string_is_full_expression(options) {
        return false;
    }
    let tokens = operation_option_tokens(options);
    let mut i: usize = 0;
    while i < tokens.len()
        invariant
            i <= tokens@.len(),
            !(classified(options@) is FullExpression),
            texts(tokens@) == option_tokens(options@),
            forall|j: int| 0 <= j < i ==> #[trigger] tokens@[j]@ != expected@,
        decreases tokens@.len() - i,
    {
        if text_eq(tokens[i].as_str(), expected) {
            assert(option_tokens(options@)[i as int] == expected@);
            assert(option_tokens(options@).contains(expected@));
            return true;
        }
        i += 1;
    }
    proof {
        if option_tokens(options@).contains(expected@) {
            let j = choose|j: int|
                0 <= j < option_tokens(options@).len() && option_tokens(options@)[j] == expected@;
            assert(texts(tokens@)[j] == tokens@[j]@);
        }
    }
    false
}

/// Fetch the options of a node that can be checked.
fn operation_options_value_and_text<'a>(
    value: &'a Node,
    file: &Document,
) -> (found: Option<(&'a Node, &'a str)>)
    ensures
        match found {
            Some((options, text)) => listed_options(value, file) == Some((*options, text@)),
            None => listed_options(value, file) is None,
        },
{
    match get_authored(file, value, "operationOptions") {
        Some(options) => match as_string(options) {
            Some(text) => if wdl_string_is_full_expression(text) { None } else { Some(
                (options, text),
            ) },
            None => None,
        },
        None => None,
    }
}

fn option_may_be_allowed(option: &str, label: &str) -> (may: bool)
    ensures
        may == may_match(classified(option@), allowed_options(label@)),
{
    if text_eq(label, "trigger") {
        wdl_string_may_match_exact(option, trigger_option_list().as_slice())
    } else {
        wdl_string_may_match_exact(option, action_option_list().as_slice())
    }
}

/// What is wrong with one option against those that the node may have.
pub open spec fn unknown_option_findings(
    options: &Node,
    option: Seq<char>,
    pointer: Seq<char>,
    label: Seq<char>,
    file: &Document,
) -> Seq<Finding> {
    if may_match(classified(option), allowed_options(label)) { Seq::empty() } else { wrong_value(
        file,
        pointer,
        "operationOptions"@,
        options.span,
        label + " operationOptions '"@ + option + "' is not supported"@,
    ) }
}

/// Validate one option against those that the node may have.
fn validate_known_option(
    options: &Node,
    option: &str,
    pointer: &str,
    label: &str,
    file: &Document,
    diagnostics: &mut Vec<Diagnostic>,
)
    ensures
        findings(final(diagnostics)@) == findings(old(diagnostics)@)
            + unknown_option_findings(options, option@, pointer@, label@, file),
{
    if !option_may_be_allowed(option, label) {
        let message = text4(label, " operationOptions '", option, "' is not supported");
        report_value(
            file,
            pointer,
            "operationOptions",
            options.span,
            message.as_str(),
            diagnostics,
        );
    }
}

/// What is wrong with one option of a node whose type is known.
pub open spec fn option_findings(
    value: &Node,
    options: &Node,
    option: Seq<char>,
    pointer: Seq<char>,
    label: Seq<char>,
    file: &Document,
    workflow: &Workflow,
) -> Seq<Finding> {
    if !may_match(
        classified(option),
        allowed_options(label),
    ) { unknown_option_findings(options, option, pointer, label, file) } else {
        match classified(option) {
            Classified::Literal(literal) => match misplaced_option(
                value,
                label,
                literal,
                workflow,
            ) {
                Some(reason) => wrong_context(
                    file,
                    pointer,
                    "operationOptions"@,
                    options.span,
                    reason,
                ),
                None => Seq::empty(),
            },
            _ => Seq::empty(),
        }
    }
}

/// Validate one option of a node whose type is known.
fn validate_option(
    value: &Node,
    options: &Node,
    option: &str,
    pointer: &str,
    label: &str,
    file: &Document,
    workflow: &Workflow,
    diagnostics: &mut Vec<Diagnostic>,
)
    ensures
        findings(final(diagnostics)@) == findings(old(diagnostics)@)
            + option_findings(value, options, option@, pointer@, label@, file, workflow),
{
    if !option_may_be_allowed(option, label) {
        validate_known_option(options, option, pointer, label, file, diagnostics);
        return;
    }
    let class = WdlStringValue::classify(option);
    if let Some(literal) = class.literal() {
        if let Some(reason) = operation_option_context(value, label, literal, workflow) {
            report_context(file, pointer, "operationOptions", options.span, reason, diagnostics);
        }
    }
}

/// What is wrong with the first `n` of the options.
pub open spec fn option_list_findings(
    tokens: Seq<Seq<char>>,
    n: nat,
    value: &Node,
    options: &Node,
    pointer: Seq<char>,
    label: Seq<char>,
    file: &Document,
    workflow: &Workflow,
) -> Seq<Finding>
    decreases n,
{
    if n == 0 {
        Seq::empty()
    } else {
        option_list_findings(tokens, (n - 1) as nat, value, options, pointer, label, file, workflow)
            + option_findings(value, options, tokens[n - 1], pointer, label, file, workflow)
    }
}

fn validate_option_list(
    tokens: &Vec<String>,
    value: &Node,
    options: &Node,
    pointer: &str,
    label: &str,
    file: &Document,
    workflow: &Workflow,
    diagnostics: &mut Vec<Diagnostic>,
)
    ensures
        findings(final(diagnostics)@) == findings(old(diagnostics)@)
            + option_list_findings(
                texts(tokens@),
                tokens@.len(),
                value,
                options,
                pointer@,
                label@,
                file,
                workflow,
            ),
{
    let ghost before = findings(diagnostics@);
    let mut i: usize = 0;
    while i < tokens.len()
        invariant
            i <= tokens.len(),
            findings(diagnostics@) == before
                + option_list_findings(
                    texts(tokens@),
                    i as nat,
                    value,
                    options,
                    pointer@,
                    label@,
                    file,
                    workflow,
                ),
        decreases tokens.len() - i,
    {
        let option = tokens[i].as_str();
        validate_option(value, options, option, pointer, label, file, workflow, diagnostics);
        i += 1;
    }
}

/// What is wrong with the first `n` of the options.
pub open spec fn unknown_option_list_findings(
    tokens: Seq<Seq<char>>,
    n: nat,
    options: &Node,
    pointer: Seq<char>,
    label: Seq<char>,
    file: &Document,
) -> Seq<Finding>
    decreases n,
{
    if n == 0 {
        Seq::empty()
    } else {
        unknown_option_list_findings(tokens, (n - 1) as nat, options, pointer, label, file)
            + unknown_option_findings(options, tokens[n - 1], pointer, label, file)
    }
}

fn validate_known_option_list(
    tokens: &Vec<String>,
    options: &Node,
    pointer: &str,
    label: &str,
    file: &Document,
    diagnostics: &mut Vec<Diagnostic>,
)
    ensures
        findings(final(diagnostics)@) == findings(old(diagnostics)@)
            + unknown_option_list_findings(
                texts(tokens@),
                tokens@.len(),
                options,
                pointer@,
                label@,
                file,
            ),
{
    let ghost before = findings(diagnostics@);
    let mut i: usize = 0;
    while i < tokens.len()
        invariant
            i <= tokens.len(),
            findings(diagnostics@) == before
                + unknown_option_list_findings(
                    texts(tokens@),
                    i as nat,
                    options,
                    pointer@,
                    label@,
                    file,
                ),
        decreases tokens.len() - i,
    {
        let option = tokens[i].as_str();
        validate_known_option(options, option, pointer, label, file, diagnostics);
        i += 1;
    }
}

/// What is wrong with the options of a node whose type is known.
pub open spec fn options_findings(
    value: &Node,
    pointer: Seq<char>,
    label: Seq<char>,
    file: &Document,
    workflow: &Workflow,
) -> Seq<Finding> {
    match listed_options(value, file) {
        Some((options, text)) => option_list_findings(
            option_tokens(text),
            option_tokens(text).len(),
            value,
            &options,
            pointer,
            label,
            file,
            workflow,
        ),
        None => Seq::empty(),
    }
}

/// Validate the options of a node whose type is known.
pub fn validate_operation_options_values(
    value: &Node,
    pointer: &str,
    label: &str,
    file: &Document,
    workflow: &Workflow,
    diagnostics: &mut Vec<Diagnostic>,
)
    ensures
        findings(final(diagnostics)@) == findings(old(diagnostics)@)
            + options_findings(value, pointer@, label@, file, workflow),
{
    if let Some((options, text)) = operation_options_value_and_text(value, file) {
        let tokens = operation_option_tokens(text);
        validate_option_list(&tokens, value, options, pointer, label, file, workflow, diagnostics);
    }
}

/// What is wrong with the options of a node whose type may be anything.
pub open spec fn unknown_options_findings(
    value: &Node,
    pointer: Seq<char>,
    label: Seq<char>,
    file: &Document,
) -> Seq<Finding> {
    match listed_options(value, file) {
        Some((options, text)) => unknown_option_list_findings(
            option_tokens(text),
            option_tokens(text).len(),
            &options,
            pointer,
            label,
            file,
        ),
        None => Seq::empty(),
    }
}

/// Validate the options of a node whose type may be anything.
pub fn validate_operation_options_literal_values(
    value: &Node,
    pointer: &str,
    label: &str,
    file: &Document,
    diagnostics: &mut Vec<Diagnostic>,
)
    ensures
        findings(final(diagnostics)@) == findings(old(diagnostics)@)
            + unknown_options_findings(value, pointer@, label@, file),
{
    if let Some((options, text)) = operation_options_value_and_text(value, file) {
        let tokens = operation_option_tokens(text);
        validate_known_option_list(&tokens, options, pointer, label, file, diagnostics);
    }
}

/// What is wrong with options that conflict with concurrency settings.
pub open spec fn option_conflict_findings(
    value: &Node,
    pointer: Seq<char>,
    label: Seq<char>,
    file: &Document,
) -> Seq<Finding> {
    match authored(file, value, "operationOptions"@) {
        Some(options) => match text_of(&options) {
            Some(text) => match present(file, value, "runtimeConfiguration"@) {
                Some(runtime) => match present(file, &runtime, "concurrency"@) {
                    Some(
                        concurrency,
                    ) => (if option_enabled(text, "SingleInstance"@)
                        && present(file, &concurrency, "runs"@) is Some {
                        wrong_context(
                            file,
                            pointer,
                            "operationOptions"@,
                            options.span,
                            label
                                + " operationOptions SingleInstance conflicts with runtimeConfiguration.concurrency.runs"@,
                        )
                    } else {
                        Seq::empty()
                    }) + (if option_enabled(text, "Sequential"@) && present(file, &concurrency, "repetitions"@) is Some {
                        wrong_context(
                            file,
                            pointer,
                            "operationOptions"@,
                            options.span,
                            label
                                + " operationOptions Sequential conflicts with runtimeConfiguration.concurrency.repetitions"@,
                        )
                    } else {
                        Seq::empty()
                    }),
                    None => Seq::empty(),
                },
                None => Seq::empty(),
            },
            None => Seq::empty(),
        },
        None => Seq::empty(),
    }
}

/// Validate options that conflict with concurrency settings.
pub fn validate_operation_options_conflicts(
    value: &Node,
    pointer: &str,
    label: &str,
    file: &Document,
    diagnostics: &mut Vec<Diagnostic>,
)
    ensures
        findings(final(diagnostics)@) == findings(old(diagnostics)@)
            + option_conflict_findings(value, pointer@, label@, file),
{
    if let Some(options) = get_authored(file, value, "operationOptions") {
        if let Some(text) = as_string(options) {
            if let Some(runtime) = get_present(file, value, "runtimeConfiguration") {
                if let Some(concurrency) = get_present(file, runtime, "concurrency") {
                    if operation_option_enabled(text, "SingleInstance")
                        && get_present(file, concurrency, "runs").is_some() {
                        let message = text2(
                            label,
                            " operationOptions SingleInstance conflicts with runtimeConfiguration.concurrency.runs",
                        );
                        report_context(
                            file,
                            pointer,
                            "operationOptions",
                            options.span,
                            message.as_str(),
                            diagnostics,
                        );
                    }
                    if operation_option_enabled(text, "Sequential")
                        && get_present(file, concurrency, "repetitions").is_some() {
                        let message = text2(
                            label,
                            " operationOptions Sequential conflicts with runtimeConfiguration.concurrency.repetitions",
                        );
                        report_context(
                            file,
                            pointer,
                            "operationOptions",
                            options.span,
                            message.as_str(),
                            diagnostics,
                        );
                    }
                }
            }
        }
    }
}
} // verus!
