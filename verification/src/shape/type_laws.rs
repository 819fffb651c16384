//! Which types of actions and triggers there are, whatever the case of their
//! letters, and that no other is let pass.

use vstd::prelude::*;

use crate::arm::{known, ArmScope};
use crate::json::{field, joined, text_of, Document, Node};
use crate::shape::operations::{authored_action_findings, authored_trigger_findings};
use crate::shape::report::issue;
use crate::shape::registry::{action_spec_of, trigger_spec_of, ActionSpec, TriggerSpec};
use crate::text::{folded, same_ignoring_case};
use crate::workflow::Workflow;

verus! {

proof fn lemma_action_types_0(text: Seq<char>)
    requires
        same_ignoring_case(text, "ApiConnection"@),
    ensures
        action_spec_of(text) == Some(ActionSpec::ApiConnection),
{
    reveal_strlit("ApiConnection");
}

proof fn lemma_action_types_1(text: Seq<char>)
    requires
        same_ignoring_case(text, "ApiConnectionWebhook"@),
    ensures
        action_spec_of(text) == Some(ActionSpec::ApiConnectionWebhook),
{
    reveal_strlit("ApiConnectionWebhook");
    reveal_strlit("ApiConnection");
    assert("ApiConnection"@.len() == 13 && text.len() == 20);
}

proof fn lemma_action_types_2(text: Seq<char>)
    requires
        same_ignoring_case(text, "ApiManagement"@),
    ensures
        action_spec_of(text) == Some(ActionSpec::ApiManagement),
{
    reveal_strlit("ApiManagement");
    reveal_strlit("ApiConnection");
    reveal_strlit("ApiConnectionWebhook");
    assert(folded(text[3]) == 'm' && folded("ApiConnection"@[3]) == 'c');
    assert(!same_ignoring_case(text, "ApiConnection"@));
    assert("ApiConnectionWebhook"@.len() == 20 && text.len() == 13);
}

proof fn lemma_action_types_3(text: Seq<char>)
    requires
        same_ignoring_case(text, "Batch"@),
    ensures
        action_spec_of(text) == Some(ActionSpec::Batch),
{
    reveal_strlit("Batch");
    reveal_strlit("ApiConnection");
    reveal_strlit("ApiConnectionWebhook");
    reveal_strlit("ApiManagement");
    assert("ApiConnection"@.len() == 13 && text.len() == 5);
    assert("ApiConnectionWebhook"@.len() == 20 && text.len() == 5);
    assert("ApiManagement"@.len() == 13 && text.len() == 5);
}

proof fn lemma_action_types_4(text: Seq<char>)
    requires
        same_ignoring_case(text, "SendToBatch"@),
    ensures
        action_spec_of(text) == Some(ActionSpec::SendToBatch),
{
    reveal_strlit("SendToBatch");
    reveal_strlit("ApiConnection");
    reveal_strlit("ApiConnectionWebhook");
    reveal_strlit("ApiManagement");
    reveal_strlit("Batch");
    assert("ApiConnection"@.len() == 13 && text.len() == 11);
    assert("ApiConnectionWebhook"@.len() == 20 && text.len() == 11);
    assert("ApiManagement"@.len() == 13 && text.len() == 11);
    assert("Batch"@.len() == 5 && text.len() == 11);
}

proof fn lemma_action_types_5(text: Seq<char>)
    requires
        same_ignoring_case(text, "Compose"@),
    ensures
        action_spec_of(text) == Some(ActionSpec::Compose),
{
    reveal_strlit("Compose");
    reveal_strlit("ApiConnection");
    reveal_strlit("ApiConnectionWebhook");
    reveal_strlit("ApiManagement");
    reveal_strlit("Batch");
    reveal_strlit("SendToBatch");
    assert("ApiConnection"@.len() == 13 && text.len() == 7);
    assert("ApiConnectionWebhook"@.len() == 20 && text.len() == 7);
    assert("ApiManagement"@.len() == 13 && text.len() == 7);
    assert("Batch"@.len() == 5 && text.len() == 7);
    assert("SendToBatch"@.len() == 11 && text.len() == 7);
}

proof fn lemma_action_types_6(text: Seq<char>)
    requires
        same_ignoring_case(text, "Expression"@),
    ensures
        action_spec_of(text) == Some(ActionSpec::Expression),
{
    reveal_strlit("Expression");
    reveal_strlit("ApiConnection");
    reveal_strlit("ApiConnectionWebhook");
    reveal_strlit("ApiManagement");
    reveal_strlit("Batch");
    reveal_strlit("SendToBatch");
    reveal_strlit("Compose");
    assert("ApiConnection"@.len() == 13 && text.len() == 10);
    assert("ApiConnectionWebhook"@.len() == 20 && text.len() == 10);
    assert("ApiManagement"@.len() == 13 && text.len() == 10);
    assert("Batch"@.len() == 5 && text.len() == 10);
    assert("SendToBatch"@.len() == 11 && text.len() == 10);
    assert("Compose"@.len() == 7 && text.len() == 10);
}

proof fn lemma_action_types_7(text: Seq<char>)
    requires
        same_ignoring_case(text, "FlatFileDecoding"@),
    ensures
        action_spec_of(text) == Some(ActionSpec::FlatFileDecoding),
{
    reveal_strlit("FlatFileDecoding");
    reveal_strlit("ApiConnection");
    reveal_strlit("ApiConnectionWebhook");
    reveal_strlit("ApiManagement");
    reveal_strlit("Batch");
    reveal_strlit("SendToBatch");
    reveal_strlit("Compose");
    reveal_strlit("Expression");
    assert("ApiConnection"@.len() == 13 && text.len() == 16);
    assert("ApiConnectionWebhook"@.len() == 20 && text.len() == 16);
    assert("ApiManagement"@.len() == 13 && text.len() == 16);
    assert("Batch"@.len() == 5 && text.len() == 16);
    assert("SendToBatch"@.len() == 11 && text.len() == 16);
    assert("Compose"@.len() == 7 && text.len() == 16);
    assert("Expression"@.len() == 10 && text.len() == 16);
}

proof fn lemma_action_types_8(text: Seq<char>)
    requires
        same_ignoring_case(text, "FlatFileEncoding"@),
    ensures
        action_spec_of(text) == Some(ActionSpec::FlatFileEncoding),
{
    reveal_strlit("FlatFileEncoding");
    reveal_strlit("ApiConnection");
    reveal_strlit("ApiConnectionWebhook");
    reveal_strlit("ApiManagement");
    reveal_strlit("Batch");
    reveal_strlit("SendToBatch");
    reveal_strlit("Compose");
    reveal_strlit("Expression");
    reveal_strlit("FlatFileDecoding");
    assert("ApiConnection"@.len() == 13 && text.len() == 16);
    assert("ApiConnectionWebhook"@.len() == 20 && text.len() == 16);
    assert("ApiManagement"@.len() == 13 && text.len() == 16);
    assert("Batch"@.len() == 5 && text.len() == 16);
    assert("SendToBatch"@.len() == 11 && text.len() == 16);
    assert("Compose"@.len() == 7 && text.len() == 16);
    assert("Expression"@.len() == 10 && text.len() == 16);
    assert(folded(text[8]) == 'e' && folded("FlatFileDecoding"@[8]) == 'd');
    assert(!same_ignoring_case(text, "FlatFileDecoding"@));
}

proof fn lemma_action_types_9(text: Seq<char>)
    requires
        same_ignoring_case(text, "Function"@),
    ensures
        action_spec_of(text) == Some(ActionSpec::Function),
{
    reveal_strlit("Function");
    reveal_strlit("ApiConnection");
    reveal_strlit("ApiConnectionWebhook");
    reveal_strlit("ApiManagement");
    reveal_strlit("Batch");
    reveal_strlit("SendToBatch");
    reveal_strlit("Compose");
    reveal_strlit("Expression");
    reveal_strlit("FlatFileDecoding");
    reveal_strlit("FlatFileEncoding");
    assert("ApiConnection"@.len() == 13 && text.len() == 8);
    assert("ApiConnectionWebhook"@.len() == 20 && text.len() == 8);
    assert("ApiManagement"@.len() == 13 && text.len() == 8);
    assert("Batch"@.len() == 5 && text.len() == 8);
    assert("SendToBatch"@.len() == 11 && text.len() == 8);
    assert("Compose"@.len() == 7 && text.len() == 8);
    assert("Expression"@.len() == 10 && text.len() == 8);
    assert("FlatFileDecoding"@.len() == 16 && text.len() == 8);
    assert("FlatFileEncoding"@.len() == 16 && text.len() == 8);
}

proof fn lemma_action_types_10(text: Seq<char>)
    requires
        same_ignoring_case(text, "Http"@),
    ensures
        action_spec_of(text) == Some(ActionSpec::Http),
{
    reveal_strlit("Http");
    reveal_strlit("ApiConnection");
    reveal_strlit("ApiConnectionWebhook");
    reveal_strlit("ApiManagement");
    reveal_strlit("Batch");
    reveal_strlit("SendToBatch");
    reveal_strlit("Compose");
    reveal_strlit("Expression");
    reveal_strlit("FlatFileDecoding");
    reveal_strlit("FlatFileEncoding");
    reveal_strlit("Function");
    assert("ApiConnection"@.len() == 13 && text.len() == 4);
    assert("ApiConnectionWebhook"@.len() == 20 && text.len() == 4);
    assert("ApiManagement"@.len() == 13 && text.len() == 4);
    assert("Batch"@.len() == 5 && text.len() == 4);
    assert("SendToBatch"@.len() == 11 && text.len() == 4);
    assert("Compose"@.len() == 7 && text.len() == 4);
    assert("Expression"@.len() == 10 && text.len() == 4);
    assert("FlatFileDecoding"@.len() == 16 && text.len() == 4);
    assert("FlatFileEncoding"@.len() == 16 && text.len() == 4);
    assert("Function"@.len() == 8 && text.len() == 4);
}

proof fn lemma_action_types_11(text: Seq<char>)
    requires
        same_ignoring_case(text, "HttpWebhook"@),
    ensures
        action_spec_of(text) == Some(ActionSpec::HttpWebhook),
{
    reveal_strlit("HttpWebhook");
    reveal_strlit("ApiConnection");
    reveal_strlit("ApiConnectionWebhook");
    reveal_strlit("ApiManagement");
    reveal_strlit("Batch");
    reveal_strlit("SendToBatch");
    reveal_strlit("Compose");
    reveal_strlit("Expression");
    reveal_strlit("FlatFileDecoding");
    reveal_strlit("FlatFileEncoding");
    reveal_strlit("Function");
    reveal_strlit("Http");
    assert("ApiConnection"@.len() == 13 && text.len() == 11);
    assert("ApiConnectionWebhook"@.len() == 20 && text.len() == 11);
    assert("ApiManagement"@.len() == 13 && text.len() == 11);
    assert("Batch"@.len() == 5 && text.len() == 11);
    assert(folded(text[0]) == 'h' && folded("SendToBatch"@[0]) == 's');
    assert(!same_ignoring_case(text, "SendToBatch"@));
    assert("Compose"@.len() == 7 && text.len() == 11);
    assert("Expression"@.len() == 10 && text.len() == 11);
    assert("FlatFileDecoding"@.len() == 16 && text.len() == 11);
    assert("FlatFileEncoding"@.len() == 16 && text.len() == 11);
    assert("Function"@.len() == 8 && text.len() == 11);
    assert("Http"@.len() == 4 && text.len() == 11);
}

proof fn lemma_action_types_12(text: Seq<char>)
    requires
        same_ignoring_case(text, "IntegrationAccountArtifactLookup"@),
    ensures
        action_spec_of(text) == Some(ActionSpec::IntegrationAccountArtifactLookup),
{
    reveal_strlit("IntegrationAccountArtifactLookup");
    reveal_strlit("ApiConnection");
    reveal_strlit("ApiConnectionWebhook");
    reveal_strlit("ApiManagement");
    reveal_strlit("Batch");
    reveal_strlit("SendToBatch");
    reveal_strlit("Compose");
    reveal_strlit("Expression");
    reveal_strlit("FlatFileDecoding");
    reveal_strlit("FlatFileEncoding");
    reveal_strlit("Function");
    reveal_strlit("Http");
    reveal_strlit("HttpWebhook");
    assert("ApiConnection"@.len() == 13 && text.len() == 32);
    assert("ApiConnectionWebhook"@.len() == 20 && text.len() == 32);
    assert("ApiManagement"@.len() == 13 && text.len() == 32);
    assert("Batch"@.len() == 5 && text.len() == 32);
    assert("SendToBatch"@.len() == 11 && text.len() == 32);
    assert("Compose"@.len() == 7 && text.len() == 32);
    assert("Expression"@.len() == 10 && text.len() == 32);
    assert("FlatFileDecoding"@.len() == 16 && text.len() == 32);
    assert("FlatFileEncoding"@.len() == 16 && text.len() == 32);
    assert("Function"@.len() == 8 && text.len() == 32);
    assert("Http"@.len() == 4 && text.len() == 32);
    assert("HttpWebhook"@.len() == 11 && text.len() == 32);
}

proof fn lemma_action_types_13(text: Seq<char>)
    requires
        same_ignoring_case(text, "JavaScriptCode"@),
    ensures
        action_spec_of(text) == Some(ActionSpec::JavaScriptCode),
{
    reveal_strlit("JavaScriptCode");
    reveal_strlit("ApiConnection");
    reveal_strlit("ApiConnectionWebhook");
    reveal_strlit("ApiManagement");
    reveal_strlit("Batch");
    reveal_strlit("SendToBatch");
    reveal_strlit("Compose");
    reveal_strlit("Expression");
    reveal_strlit("FlatFileDecoding");
    reveal_strlit("FlatFileEncoding");
    reveal_strlit("Function");
    reveal_strlit("Http");
    reveal_strlit("HttpWebhook");
    reveal_strlit("IntegrationAccountArtifactLookup");
    assert("ApiConnection"@.len() == 13 && text.len() == 14);
    assert("ApiConnectionWebhook"@.len() == 20 && text.len() == 14);
    assert("ApiManagement"@.len() == 13 && text.len() == 14);
    assert("Batch"@.len() == 5 && text.len() == 14);
    assert("SendToBatch"@.len() == 11 && text.len() == 14);
    assert("Compose"@.len() == 7 && text.len() == 14);
    assert("Expression"@.len() == 10 && text.len() == 14);
    assert("FlatFileDecoding"@.len() == 16 && text.len() == 14);
    assert("FlatFileEncoding"@.len() == 16 && text.len() == 14);
    assert("Function"@.len() == 8 && text.len() == 14);
    assert("Http"@.len() == 4 && text.len() == 14);
    assert("HttpWebhook"@.len() == 11 && text.len() == 14);
    assert("IntegrationAccountArtifactLookup"@.len() == 32 && text.len() == 14);
}

proof fn lemma_action_types_14(text: Seq<char>)
    requires
        same_ignoring_case(text, "Join"@),
    ensures
        action_spec_of(text) == Some(ActionSpec::Join),
{
    reveal_strlit("Join");
    reveal_strlit("ApiConnection");
    reveal_strlit("ApiConnectionWebhook");
    reveal_strlit("ApiManagement");
    reveal_strlit("Batch");
    reveal_strlit("SendToBatch");
    reveal_strlit("Compose");
    reveal_strlit("Expression");
    reveal_strlit("FlatFileDecoding");
    reveal_strlit("FlatFileEncoding");
    reveal_strlit("Function");
    reveal_strlit("Http");
    reveal_strlit("HttpWebhook");
    reveal_strlit("IntegrationAccountArtifactLookup");
    reveal_strlit("JavaScriptCode");
    assert("ApiConnection"@.len() == 13 && text.len() == 4);
    assert("ApiConnectionWebhook"@.len() == 20 && text.len() == 4);
    assert("ApiManagement"@.len() == 13 && text.len() == 4);
    assert("Batch"@.len() == 5 && text.len() == 4);
    assert("SendToBatch"@.len() == 11 && text.len() == 4);
    assert("Compose"@.len() == 7 && text.len() == 4);
    assert("Expression"@.len() == 10 && text.len() == 4);
    assert("FlatFileDecoding"@.len() == 16 && text.len() == 4);
    assert("FlatFileEncoding"@.len() == 16 && text.len() == 4);
    assert("Function"@.len() == 8 && text.len() == 4);
    assert(folded(text[0]) == 'j' && folded("Http"@[0]) == 'h');
    assert(!same_ignoring_case(text, "Http"@));
    assert("HttpWebhook"@.len() == 11 && text.len() == 4);
    assert("IntegrationAccountArtifactLookup"@.len() == 32 && text.len() == 4);
    assert("JavaScriptCode"@.len() == 14 && text.len() == 4);
}

proof fn lemma_action_types_15(text: Seq<char>)
    requires
        same_ignoring_case(text, "Liquid"@),
    ensures
        action_spec_of(text) == Some(ActionSpec::Liquid),
{
    reveal_strlit("Liquid");
    reveal_strlit("ApiConnection");
    reveal_strlit("ApiConnectionWebhook");
    reveal_strlit("ApiManagement");
    reveal_strlit("Batch");
    reveal_strlit("SendToBatch");
    reveal_strlit("Compose");
    reveal_strlit("Expression");
    reveal_strlit("FlatFileDecoding");
    reveal_strlit("FlatFileEncoding");
    reveal_strlit("Function");
    reveal_strlit("Http");
    reveal_strlit("HttpWebhook");
    reveal_strlit("IntegrationAccountArtifactLookup");
    reveal_strlit("JavaScriptCode");
    reveal_strlit("Join");
    assert("ApiConnection"@.len() == 13 && text.len() == 6);
    assert("ApiConnectionWebhook"@.len() == 20 && text.len() == 6);
    assert("ApiManagement"@.len() == 13 && text.len() == 6);
    assert("Batch"@.len() == 5 && text.len() == 6);
    assert("SendToBatch"@.len() == 11 && text.len() == 6);
    assert("Compose"@.len() == 7 && text.len() == 6);
    assert("Expression"@.len() == 10 && text.len() == 6);
    assert("FlatFileDecoding"@.len() == 16 && text.len() == 6);
    assert("FlatFileEncoding"@.len() == 16 && text.len() == 6);
    assert("Function"@.len() == 8 && text.len() == 6);
    assert("Http"@.len() == 4 && text.len() == 6);
    assert("HttpWebhook"@.len() == 11 && text.len() == 6);
    assert("IntegrationAccountArtifactLookup"@.len() == 32 && text.len() == 6);
    assert("JavaScriptCode"@.len() == 14 && text.len() == 6);
    assert("Join"@.len() == 4 && text.len() == 6);
}

proof fn lemma_action_types_16(text: Seq<char>)
    requires
        same_ignoring_case(text, "ParseJson"@),
    ensures
        action_spec_of(text) == Some(ActionSpec::ParseJson),
{
    reveal_strlit("ParseJson");
    reveal_strlit("ApiConnection");
    reveal_strlit("ApiConnectionWebhook");
    reveal_strlit("ApiManagement");
    reveal_strlit("Batch");
    reveal_strlit("SendToBatch");
    reveal_strlit("Compose");
    reveal_strlit("Expression");
    reveal_strlit("FlatFileDecoding");
    reveal_strlit("FlatFileEncoding");
    reveal_strlit("Function");
    reveal_strlit("Http");
    reveal_strlit("HttpWebhook");
    reveal_strlit("IntegrationAccountArtifactLookup");
    reveal_strlit("JavaScriptCode");
    reveal_strlit("Join");
    reveal_strlit("Liquid");
    assert("ApiConnection"@.len() == 13 && text.len() == 9);
    assert("ApiConnectionWebhook"@.len() == 20 && text.len() == 9);
    assert("ApiManagement"@.len() == 13 && text.len() == 9);
    assert("Batch"@.len() == 5 && text.len() == 9);
    assert("SendToBatch"@.len() == 11 && text.len() == 9);
    assert("Compose"@.len() == 7 && text.len() == 9);
    assert("Expression"@.len() == 10 && text.len() == 9);
    assert("FlatFileDecoding"@.len() == 16 && text.len() == 9);
    assert("FlatFileEncoding"@.len() == 16 && text.len() == 9);
    assert("Function"@.len() == 8 && text.len() == 9);
    assert("Http"@.len() == 4 && text.len() == 9);
    assert("HttpWebhook"@.len() == 11 && text.len() == 9);
    assert("IntegrationAccountArtifactLookup"@.len() == 32 && text.len() == 9);
    assert("JavaScriptCode"@.len() == 14 && text.len() == 9);
    assert("Join"@.len() == 4 && text.len() == 9);
    assert("Liquid"@.len() == 6 && text.len() == 9);
}

proof fn lemma_action_types_17(text: Seq<char>)
    requires
        same_ignoring_case(text, "PowershellCode"@),
    ensures
        action_spec_of(text) == Some(ActionSpec::PowershellCode),
{
    reveal_strlit("PowershellCode");
    reveal_strlit("ApiConnection");
    reveal_strlit("ApiConnectionWebhook");
    reveal_strlit("ApiManagement");
    reveal_strlit("Batch");
    reveal_strlit("SendToBatch");
    reveal_strlit("Compose");
    reveal_strlit("Expression");
    reveal_strlit("FlatFileDecoding");
    reveal_strlit("FlatFileEncoding");
    reveal_strlit("Function");
    reveal_strlit("Http");
    reveal_strlit("HttpWebhook");
    reveal_strlit("IntegrationAccountArtifactLookup");
    reveal_strlit("JavaScriptCode");
    reveal_strlit("Join");
    reveal_strlit("Liquid");
    reveal_strlit("ParseJson");
    assert("ApiConnection"@.len() == 13 && text.len() == 14);
    assert("ApiConnectionWebhook"@.len() == 20 && text.len() == 14);
    assert("ApiManagement"@.len() == 13 && text.len() == 14);
    assert("Batch"@.len() == 5 && text.len() == 14);
    assert("SendToBatch"@.len() == 11 && text.len() == 14);
    assert("Compose"@.len() == 7 && text.len() == 14);
    assert("Expression"@.len() == 10 && text.len() == 14);
    assert("FlatFileDecoding"@.len() == 16 && text.len() == 14);
    assert("FlatFileEncoding"@.len() == 16 && text.len() == 14);
    assert("Function"@.len() == 8 && text.len() == 14);
    assert("Http"@.len() == 4 && text.len() == 14);
    assert("HttpWebhook"@.len() == 11 && text.len() == 14);
    assert("IntegrationAccountArtifactLookup"@.len() == 32 && text.len() == 14);
    assert(folded(text[0]) == 'p' && folded("JavaScriptCode"@[0]) == 'j');
    assert(!same_ignoring_case(text, "JavaScriptCode"@));
    assert("Join"@.len() == 4 && text.len() == 14);
    assert("Liquid"@.len() == 6 && text.len() == 14);
    assert("ParseJson"@.len() == 9 && text.len() == 14);
}

proof fn lemma_action_types_18(text: Seq<char>)
    requires
        same_ignoring_case(text, "Query"@),
    ensures
        action_spec_of(text) == Some(ActionSpec::Query),
{
    reveal_strlit("Query");
    reveal_strlit("ApiConnection");
    reveal_strlit("ApiConnectionWebhook");
    reveal_strlit("ApiManagement");
    reveal_strlit("Batch");
    reveal_strlit("SendToBatch");
    reveal_strlit("Compose");
    reveal_strlit("Expression");
    reveal_strlit("FlatFileDecoding");
    reveal_strlit("FlatFileEncoding");
    reveal_strlit("Function");
    reveal_strlit("Http");
    reveal_strlit("HttpWebhook");
    reveal_strlit("IntegrationAccountArtifactLookup");
    reveal_strlit("JavaScriptCode");
    reveal_strlit("Join");
    reveal_strlit("Liquid");
    reveal_strlit("ParseJson");
    reveal_strlit("PowershellCode");
    assert("ApiConnection"@.len() == 13 && text.len() == 5);
    assert("ApiConnectionWebhook"@.len() == 20 && text.len() == 5);
    assert("ApiManagement"@.len() == 13 && text.len() == 5);
    assert(folded(text[0]) == 'q' && folded("Batch"@[0]) == 'b');
    assert(!same_ignoring_case(text, "Batch"@));
    assert("SendToBatch"@.len() == 11 && text.len() == 5);
    assert("Compose"@.len() == 7 && text.len() == 5);
    assert("Expression"@.len() == 10 && text.len() == 5);
    assert("FlatFileDecoding"@.len() == 16 && text.len() == 5);
    assert("FlatFileEncoding"@.len() == 16 && text.len() == 5);
    assert("Function"@.len() == 8 && text.len() == 5);
    assert("Http"@.len() == 4 && text.len() == 5);
    assert("HttpWebhook"@.len() == 11 && text.len() == 5);
    assert("IntegrationAccountArtifactLookup"@.len() == 32 && text.len() == 5);
    assert("JavaScriptCode"@.len() == 14 && text.len() == 5);
    assert("Join"@.len() == 4 && text.len() == 5);
    assert("Liquid"@.len() == 6 && text.len() == 5);
    assert("ParseJson"@.len() == 9 && text.len() == 5);
    assert("PowershellCode"@.len() == 14 && text.len() == 5);
}

proof fn lemma_action_types_19(text: Seq<char>)
    requires
        same_ignoring_case(text, "Response"@),
    ensures
        action_spec_of(text) == Some(ActionSpec::Response),
{
    reveal_strlit("Response");
    reveal_strlit("ApiConnection");
    reveal_strlit("ApiConnectionWebhook");
    reveal_strlit("ApiManagement");
    reveal_strlit("Batch");
    reveal_strlit("SendToBatch");
    reveal_strlit("Compose");
    reveal_strlit("Expression");
    reveal_strlit("FlatFileDecoding");
    reveal_strlit("FlatFileEncoding");
    reveal_strlit("Function");
    reveal_strlit("Http");
    reveal_strlit("HttpWebhook");
    reveal_strlit("IntegrationAccountArtifactLookup");
    reveal_strlit("JavaScriptCode");
    reveal_strlit("Join");
    reveal_strlit("Liquid");
    reveal_strlit("ParseJson");
    reveal_strlit("PowershellCode");
    reveal_strlit("Query");
    assert("ApiConnection"@.len() == 13 && text.len() == 8);
    assert("ApiConnectionWebhook"@.len() == 20 && text.len() == 8);
    assert("ApiManagement"@.len() == 13 && text.len() == 8);
    assert("Batch"@.len() == 5 && text.len() == 8);
    assert("SendToBatch"@.len() == 11 && text.len() == 8);
    assert("Compose"@.len() == 7 && text.len() == 8);
    assert("Expression"@.len() == 10 && text.len() == 8);
    assert("FlatFileDecoding"@.len() == 16 && text.len() == 8);
    assert("FlatFileEncoding"@.len() == 16 && text.len() == 8);
    assert(folded(text[0]) == 'r' && folded("Function"@[0]) == 'f');
    assert(!same_ignoring_case(text, "Function"@));
    assert("Http"@.len() == 4 && text.len() == 8);
    assert("HttpWebhook"@.len() == 11 && text.len() == 8);
    assert("IntegrationAccountArtifactLookup"@.len() == 32 && text.len() == 8);
    assert("JavaScriptCode"@.len() == 14 && text.len() == 8);
    assert("Join"@.len() == 4 && text.len() == 8);
    assert("Liquid"@.len() == 6 && text.len() == 8);
    assert("ParseJson"@.len() == 9 && text.len() == 8);
    assert("PowershellCode"@.len() == 14 && text.len() == 8);
    assert("Query"@.len() == 5 && text.len() == 8);
}

proof fn lemma_action_types_20(text: Seq<char>)
    requires
        same_ignoring_case(text, "ServiceProvider"@),
    ensures
        action_spec_of(text) == Some(ActionSpec::ServiceProvider),
{
    reveal_strlit("ServiceProvider");
    reveal_strlit("ApiConnection");
    reveal_strlit("ApiConnectionWebhook");
    reveal_strlit("ApiManagement");
    reveal_strlit("Batch");
    reveal_strlit("SendToBatch");
    reveal_strlit("Compose");
    reveal_strlit("Expression");
    reveal_strlit("FlatFileDecoding");
    reveal_strlit("FlatFileEncoding");
    reveal_strlit("Function");
    reveal_strlit("Http");
    reveal_strlit("HttpWebhook");
    reveal_strlit("IntegrationAccountArtifactLookup");
    reveal_strlit("JavaScriptCode");
    reveal_strlit("Join");
    reveal_strlit("Liquid");
    reveal_strlit("ParseJson");
    reveal_strlit("PowershellCode");
    reveal_strlit("Query");
    reveal_strlit("Response");
    assert("ApiConnection"@.len() == 13 && text.len() == 15);
    assert("ApiConnectionWebhook"@.len() == 20 && text.len() == 15);
    assert("ApiManagement"@.len() == 13 && text.len() == 15);
    assert("Batch"@.len() == 5 && text.len() == 15);
    assert("SendToBatch"@.len() == 11 && text.len() == 15);
    assert("Compose"@.len() == 7 && text.len() == 15);
    assert("Expression"@.len() == 10 && text.len() == 15);
    assert("FlatFileDecoding"@.len() == 16 && text.len() == 15);
    assert("FlatFileEncoding"@.len() == 16 && text.len() == 15);
    assert("Function"@.len() == 8 && text.len() == 15);
    assert("Http"@.len() == 4 && text.len() == 15);
    assert("HttpWebhook"@.len() == 11 && text.len() == 15);
    assert("IntegrationAccountArtifactLookup"@.len() == 32 && text.len() == 15);
    assert("JavaScriptCode"@.len() == 14 && text.len() == 15);
    assert("Join"@.len() == 4 && text.len() == 15);
    assert("Liquid"@.len() == 6 && text.len() == 15);
    assert("ParseJson"@.len() == 9 && text.len() == 15);
    assert("PowershellCode"@.len() == 14 && text.len() == 15);
    assert("Query"@.len() == 5 && text.len() == 15);
    assert("Response"@.len() == 8 && text.len() == 15);
}

proof fn lemma_action_types_21(text: Seq<char>)
    requires
        same_ignoring_case(text, "Foreach"@),
    ensures
        action_spec_of(text) == Some(ActionSpec::Foreach),
{
    reveal_strlit("Foreach");
    reveal_strlit("ApiConnection");
    reveal_strlit("ApiConnectionWebhook");
    reveal_strlit("ApiManagement");
    reveal_strlit("Batch");
    reveal_strlit("SendToBatch");
    reveal_strlit("Compose");
    reveal_strlit("Expression");
    reveal_strlit("FlatFileDecoding");
    reveal_strlit("FlatFileEncoding");
    reveal_strlit("Function");
    reveal_strlit("Http");
    reveal_strlit("HttpWebhook");
    reveal_strlit("IntegrationAccountArtifactLookup");
    reveal_strlit("JavaScriptCode");
    reveal_strlit("Join");
    reveal_strlit("Liquid");
    reveal_strlit("ParseJson");
    reveal_strlit("PowershellCode");
    reveal_strlit("Query");
    reveal_strlit("Response");
    reveal_strlit("ServiceProvider");
    assert("ApiConnection"@.len() == 13 && text.len() == 7);
    assert("ApiConnectionWebhook"@.len() == 20 && text.len() == 7);
    assert("ApiManagement"@.len() == 13 && text.len() == 7);
    assert("Batch"@.len() == 5 && text.len() == 7);
    assert("SendToBatch"@.len() == 11 && text.len() == 7);
    assert(folded(text[0]) == 'f' && folded("Compose"@[0]) == 'c');
    assert(!same_ignoring_case(text, "Compose"@));
    assert("Expression"@.len() == 10 && text.len() == 7);
    assert("FlatFileDecoding"@.len() == 16 && text.len() == 7);
    assert("FlatFileEncoding"@.len() == 16 && text.len() == 7);
    assert("Function"@.len() == 8 && text.len() == 7);
    assert("Http"@.len() == 4 && text.len() == 7);
    assert("HttpWebhook"@.len() == 11 && text.len() == 7);
    assert("IntegrationAccountArtifactLookup"@.len() == 32 && text.len() == 7);
    assert("JavaScriptCode"@.len() == 14 && text.len() == 7);
    assert("Join"@.len() == 4 && text.len() == 7);
    assert("Liquid"@.len() == 6 && text.len() == 7);
    assert("ParseJson"@.len() == 9 && text.len() == 7);
    assert("PowershellCode"@.len() == 14 && text.len() == 7);
    assert("Query"@.len() == 5 && text.len() == 7);
    assert("Response"@.len() == 8 && text.len() == 7);
    assert("ServiceProvider"@.len() == 15 && text.len() == 7);
}

proof fn lemma_action_types_22(text: Seq<char>)
    requires
        same_ignoring_case(text, "If"@),
    ensures
        action_spec_of(text) == Some(ActionSpec::If),
{
    reveal_strlit("If");
    reveal_strlit("ApiConnection");
    reveal_strlit("ApiConnectionWebhook");
    reveal_strlit("ApiManagement");
    reveal_strlit("Batch");
    reveal_strlit("SendToBatch");
    reveal_strlit("Compose");
    reveal_strlit("Expression");
    reveal_strlit("FlatFileDecoding");
    reveal_strlit("FlatFileEncoding");
    reveal_strlit("Function");
    reveal_strlit("Http");
    reveal_strlit("HttpWebhook");
    reveal_strlit("IntegrationAccountArtifactLookup");
    reveal_strlit("JavaScriptCode");
    reveal_strlit("Join");
    reveal_strlit("Liquid");
    reveal_strlit("ParseJson");
    reveal_strlit("PowershellCode");
    reveal_strlit("Query");
    reveal_strlit("Response");
    reveal_strlit("ServiceProvider");
    reveal_strlit("Foreach");
    assert("ApiConnection"@.len() == 13 && text.len() == 2);
    assert("ApiConnectionWebhook"@.len() == 20 && text.len() == 2);
    assert("ApiManagement"@.len() == 13 && text.len() == 2);
    assert("Batch"@.len() == 5 && text.len() == 2);
    assert("SendToBatch"@.len() == 11 && text.len() == 2);
    assert("Compose"@.len() == 7 && text.len() == 2);
    assert("Expression"@.len() == 10 && text.len() == 2);
    assert("FlatFileDecoding"@.len() == 16 && text.len() == 2);
    assert("FlatFileEncoding"@.len() == 16 && text.len() == 2);
    assert("Function"@.len() == 8 && text.len() == 2);
    assert("Http"@.len() == 4 && text.len() == 2);
    assert("HttpWebhook"@.len() == 11 && text.len() == 2);
    assert("IntegrationAccountArtifactLookup"@.len() == 32 && text.len() == 2);
    assert("JavaScriptCode"@.len() == 14 && text.len() == 2);
    assert("Join"@.len() == 4 && text.len() == 2);
    assert("Liquid"@.len() == 6 && text.len() == 2);
    assert("ParseJson"@.len() == 9 && text.len() == 2);
    assert("PowershellCode"@.len() == 14 && text.len() == 2);
    assert("Query"@.len() == 5 && text.len() == 2);
    assert("Response"@.len() == 8 && text.len() == 2);
    assert("ServiceProvider"@.len() == 15 && text.len() == 2);
    assert("Foreach"@.len() == 7 && text.len() == 2);
}

proof fn lemma_action_types_23(text: Seq<char>)
    requires
        same_ignoring_case(text, "Scope"@),
    ensures
        action_spec_of(text) == Some(ActionSpec::Scope),
{
    reveal_strlit("Scope");
    reveal_strlit("ApiConnection");
    reveal_strlit("ApiConnectionWebhook");
    reveal_strlit("ApiManagement");
    reveal_strlit("Batch");
    reveal_strlit("SendToBatch");
    reveal_strlit("Compose");
    reveal_strlit("Expression");
    reveal_strlit("FlatFileDecoding");
    reveal_strlit("FlatFileEncoding");
    reveal_strlit("Function");
    reveal_strlit("Http");
    reveal_strlit("HttpWebhook");
    reveal_strlit("IntegrationAccountArtifactLookup");
    reveal_strlit("JavaScriptCode");
    reveal_strlit("Join");
    reveal_strlit("Liquid");
    reveal_strlit("ParseJson");
    reveal_strlit("PowershellCode");
    reveal_strlit("Query");
    reveal_strlit("Response");
    reveal_strlit("ServiceProvider");
    reveal_strlit("Foreach");
    reveal_strlit("If");
    assert("ApiConnection"@.len() == 13 && text.len() == 5);
    assert("ApiConnectionWebhook"@.len() == 20 && text.len() == 5);
    assert("ApiManagement"@.len() == 13 && text.len() == 5);
    assert(folded(text[0]) == 's' && folded("Batch"@[0]) == 'b');
    assert(!same_ignoring_case(text, "Batch"@));
    assert("SendToBatch"@.len() == 11 && text.len() == 5);
    assert("Compose"@.len() == 7 && text.len() == 5);
    assert("Expression"@.len() == 10 && text.len() == 5);
    assert("FlatFileDecoding"@.len() == 16 && text.len() == 5);
    assert("FlatFileEncoding"@.len() == 16 && text.len() == 5);
    assert("Function"@.len() == 8 && text.len() == 5);
    assert("Http"@.len() == 4 && text.len() == 5);
    assert("HttpWebhook"@.len() == 11 && text.len() == 5);
    assert("IntegrationAccountArtifactLookup"@.len() == 32 && text.len() == 5);
    assert("JavaScriptCode"@.len() == 14 && text.len() == 5);
    assert("Join"@.len() == 4 && text.len() == 5);
    assert("Liquid"@.len() == 6 && text.len() == 5);
    assert("ParseJson"@.len() == 9 && text.len() == 5);
    assert("PowershellCode"@.len() == 14 && text.len() == 5);
    assert(folded(text[0]) == 's' && folded("Query"@[0]) == 'q');
    assert(!same_ignoring_case(text, "Query"@));
    assert("Response"@.len() == 8 && text.len() == 5);
    assert("ServiceProvider"@.len() == 15 && text.len() == 5);
    assert("Foreach"@.len() == 7 && text.len() == 5);
    assert("If"@.len() == 2 && text.len() == 5);
}

proof fn lemma_action_types_24(text: Seq<char>)
    requires
        same_ignoring_case(text, "Switch"@),
    ensures
        action_spec_of(text) == Some(ActionSpec::Switch),
{
    reveal_strlit("Switch");
    reveal_strlit("ApiConnection");
    reveal_strlit("ApiConnectionWebhook");
    reveal_strlit("ApiManagement");
    reveal_strlit("Batch");
    reveal_strlit("SendToBatch");
    reveal_strlit("Compose");
    reveal_strlit("Expression");
    reveal_strlit("FlatFileDecoding");
    reveal_strlit("FlatFileEncoding");
    reveal_strlit("Function");
    reveal_strlit("Http");
    reveal_strlit("HttpWebhook");
    reveal_strlit("IntegrationAccountArtifactLookup");
    reveal_strlit("JavaScriptCode");
    reveal_strlit("Join");
    reveal_strlit("Liquid");
    reveal_strlit("ParseJson");
    reveal_strlit("PowershellCode");
    reveal_strlit("Query");
    reveal_strlit("Response");
    reveal_strlit("ServiceProvider");
    reveal_strlit("Foreach");
    reveal_strlit("If");
    reveal_strlit("Scope");
    assert("ApiConnection"@.len() == 13 && text.len() == 6);
    assert("ApiConnectionWebhook"@.len() == 20 && text.len() == 6);
    assert("ApiManagement"@.len() == 13 && text.len() == 6);
    assert("Batch"@.len() == 5 && text.len() == 6);
    assert("SendToBatch"@.len() == 11 && text.len() == 6);
    assert("Compose"@.len() == 7 && text.len() == 6);
    assert("Expression"@.len() == 10 && text.len() == 6);
    assert("FlatFileDecoding"@.len() == 16 && text.len() == 6);
    assert("FlatFileEncoding"@.len() == 16 && text.len() == 6);
    assert("Function"@.len() == 8 && text.len() == 6);
    assert("Http"@.len() == 4 && text.len() == 6);
    assert("HttpWebhook"@.len() == 11 && text.len() == 6);
    assert("IntegrationAccountArtifactLookup"@.len() == 32 && text.len() == 6);
    assert("JavaScriptCode"@.len() == 14 && text.len() == 6);
    assert("Join"@.len() == 4 && text.len() == 6);
    assert(folded(text[0]) == 's' && folded("Liquid"@[0]) == 'l');
    assert(!same_ignoring_case(text, "Liquid"@));
    assert("ParseJson"@.len() == 9 && text.len() == 6);
    assert("PowershellCode"@.len() == 14 && text.len() == 6);
    assert("Query"@.len() == 5 && text.len() == 6);
    assert("Response"@.len() == 8 && text.len() == 6);
    assert("ServiceProvider"@.len() == 15 && text.len() == 6);
    assert("Foreach"@.len() == 7 && text.len() == 6);
    assert("If"@.len() == 2 && text.len() == 6);
    assert("Scope"@.len() == 5 && text.len() == 6);
}

proof fn lemma_action_types_25(text: Seq<char>)
    requires
        same_ignoring_case(text, "Until"@),
    ensures
        action_spec_of(text) == Some(ActionSpec::Until),
{
    reveal_strlit("Until");
    reveal_strlit("ApiConnection");
    reveal_strlit("ApiConnectionWebhook");
    reveal_strlit("ApiManagement");
    reveal_strlit("Batch");
    reveal_strlit("SendToBatch");
    reveal_strlit("Compose");
    reveal_strlit("Expression");
    reveal_strlit("FlatFileDecoding");
    reveal_strlit("FlatFileEncoding");
    reveal_strlit("Function");
    reveal_strlit("Http");
    reveal_strlit("HttpWebhook");
    reveal_strlit("IntegrationAccountArtifactLookup");
    reveal_strlit("JavaScriptCode");
    reveal_strlit("Join");
    reveal_strlit("Liquid");
    reveal_strlit("ParseJson");
    reveal_strlit("PowershellCode");
    reveal_strlit("Query");
    reveal_strlit("Response");
    reveal_strlit("ServiceProvider");
    reveal_strlit("Foreach");
    reveal_strlit("If");
    reveal_strlit("Scope");
    reveal_strlit("Switch");
    assert("ApiConnection"@.len() == 13 && text.len() == 5);
    assert("ApiConnectionWebhook"@.len() == 20 && text.len() == 5);
    assert("ApiManagement"@.len() == 13 && text.len() == 5);
    assert(folded(text[0]) == 'u' && folded("Batch"@[0]) == 'b');
    assert(!same_ignoring_case(text, "Batch"@));
    assert("SendToBatch"@.len() == 11 && text.len() == 5);
    assert("Compose"@.len() == 7 && text.len() == 5);
    assert("Expression"@.len() == 10 && text.len() == 5);
    assert("FlatFileDecoding"@.len() == 16 && text.len() == 5);
    assert("FlatFileEncoding"@.len() == 16 && text.len() == 5);
    assert("Function"@.len() == 8 && text.len() == 5);
    assert("Http"@.len() == 4 && text.len() == 5);
    assert("HttpWebhook"@.len() == 11 && text.len() == 5);
    assert("IntegrationAccountArtifactLookup"@.len() == 32 && text.len() == 5);
    assert("JavaScriptCode"@.len() == 14 && text.len() == 5);
    assert("Join"@.len() == 4 && text.len() == 5);
    assert("Liquid"@.len() == 6 && text.len() == 5);
    assert("ParseJson"@.len() == 9 && text.len() == 5);
    assert("PowershellCode"@.len() == 14 && text.len() == 5);
    assert(folded(text[0]) == 'u' && folded("Query"@[0]) == 'q');
    assert(!same_ignoring_case(text, "Query"@));
    assert("Response"@.len() == 8 && text.len() == 5);
    assert("ServiceProvider"@.len() == 15 && text.len() == 5);
    assert("Foreach"@.len() == 7 && text.len() == 5);
    assert("If"@.len() == 2 && text.len() == 5);
    assert(folded(text[0]) == 'u' && folded("Scope"@[0]) == 's');
    assert(!same_ignoring_case(text, "Scope"@));
    assert("Switch"@.len() == 6 && text.len() == 5);
}

proof fn lemma_action_types_26(text: Seq<char>)
    requires
        same_ignoring_case(text, "Select"@),
    ensures
        action_spec_of(text) == Some(ActionSpec::Select),
{
    reveal_strlit("Select");
    reveal_strlit("ApiConnection");
    reveal_strlit("ApiConnectionWebhook");
    reveal_strlit("ApiManagement");
    reveal_strlit("Batch");
    reveal_strlit("SendToBatch");
    reveal_strlit("Compose");
    reveal_strlit("Expression");
    reveal_strlit("FlatFileDecoding");
    reveal_strlit("FlatFileEncoding");
    reveal_strlit("Function");
    reveal_strlit("Http");
    reveal_strlit("HttpWebhook");
    reveal_strlit("IntegrationAccountArtifactLookup");
    reveal_strlit("JavaScriptCode");
    reveal_strlit("Join");
    reveal_strlit("Liquid");
    reveal_strlit("ParseJson");
    reveal_strlit("PowershellCode");
    reveal_strlit("Query");
    reveal_strlit("Response");
    reveal_strlit("ServiceProvider");
    reveal_strlit("Foreach");
    reveal_strlit("If");
    reveal_strlit("Scope");
    reveal_strlit("Switch");
    reveal_strlit("Until");
    assert("ApiConnection"@.len() == 13 && text.len() == 6);
    assert("ApiConnectionWebhook"@.len() == 20 && text.len() == 6);
    assert("ApiManagement"@.len() == 13 && text.len() == 6);
    assert("Batch"@.len() == 5 && text.len() == 6);
    assert("SendToBatch"@.len() == 11 && text.len() == 6);
    assert("Compose"@.len() == 7 && text.len() == 6);
    assert("Expression"@.len() == 10 && text.len() == 6);
    assert("FlatFileDecoding"@.len() == 16 && text.len() == 6);
    assert("FlatFileEncoding"@.len() == 16 && text.len() == 6);
    assert("Function"@.len() == 8 && text.len() == 6);
    assert("Http"@.len() == 4 && text.len() == 6);
    assert("HttpWebhook"@.len() == 11 && text.len() == 6);
    assert("IntegrationAccountArtifactLookup"@.len() == 32 && text.len() == 6);
    assert("JavaScriptCode"@.len() == 14 && text.len() == 6);
    assert("Join"@.len() == 4 && text.len() == 6);
    assert(folded(text[0]) == 's' && folded("Liquid"@[0]) == 'l');
    assert(!same_ignoring_case(text, "Liquid"@));
    assert("ParseJson"@.len() == 9 && text.len() == 6);
    assert("PowershellCode"@.len() == 14 && text.len() == 6);
    assert("Query"@.len() == 5 && text.len() == 6);
    assert("Response"@.len() == 8 && text.len() == 6);
    assert("ServiceProvider"@.len() == 15 && text.len() == 6);
    assert("Foreach"@.len() == 7 && text.len() == 6);
    assert("If"@.len() == 2 && text.len() == 6);
    assert("Scope"@.len() == 5 && text.len() == 6);
    assert(folded(text[1]) == 'e' && folded("Switch"@[1]) == 'w');
    assert(!same_ignoring_case(text, "Switch"@));
    assert("Until"@.len() == 5 && text.len() == 6);
}

proof fn lemma_action_types_27(text: Seq<char>)
    requires
        same_ignoring_case(text, "Table"@),
    ensures
        action_spec_of(text) == Some(ActionSpec::Table),
{
    reveal_strlit("Table");
    reveal_strlit("ApiConnection");
    reveal_strlit("ApiConnectionWebhook");
    reveal_strlit("ApiManagement");
    reveal_strlit("Batch");
    reveal_strlit("SendToBatch");
    reveal_strlit("Compose");
    reveal_strlit("Expression");
    reveal_strlit("FlatFileDecoding");
    reveal_strlit("FlatFileEncoding");
    reveal_strlit("Function");
    reveal_strlit("Http");
    reveal_strlit("HttpWebhook");
    reveal_strlit("IntegrationAccountArtifactLookup");
    reveal_strlit("JavaScriptCode");
    reveal_strlit("Join");
    reveal_strlit("Liquid");
    reveal_strlit("ParseJson");
    reveal_strlit("PowershellCode");
    reveal_strlit("Query");
    reveal_strlit("Response");
    reveal_strlit("ServiceProvider");
    reveal_strlit("Foreach");
    reveal_strlit("If");
    reveal_strlit("Scope");
    reveal_strlit("Switch");
    reveal_strlit("Until");
    reveal_strlit("Select");
    assert("ApiConnection"@.len() == 13 && text.len() == 5);
    assert("ApiConnectionWebhook"@.len() == 20 && text.len() == 5);
    assert("ApiManagement"@.len() == 13 && text.len() == 5);
    assert(folded(text[0]) == 't' && folded("Batch"@[0]) == 'b');
    assert(!same_ignoring_case(text, "Batch"@));
    assert("SendToBatch"@.len() == 11 && text.len() == 5);
    assert("Compose"@.len() == 7 && text.len() == 5);
    assert("Expression"@.len() == 10 && text.len() == 5);
    assert("FlatFileDecoding"@.len() == 16 && text.len() == 5);
    assert("FlatFileEncoding"@.len() == 16 && text.len() == 5);
    assert("Function"@.len() == 8 && text.len() == 5);
    assert("Http"@.len() == 4 && text.len() == 5);
    assert("HttpWebhook"@.len() == 11 && text.len() == 5);
    assert("IntegrationAccountArtifactLookup"@.len() == 32 && text.len() == 5);
    assert("JavaScriptCode"@.len() == 14 && text.len() == 5);
    assert("Join"@.len() == 4 && text.len() == 5);
    assert("Liquid"@.len() == 6 && text.len() == 5);
    assert("ParseJson"@.len() == 9 && text.len() == 5);
    assert("PowershellCode"@.len() == 14 && text.len() == 5);
    assert(folded(text[0]) == 't' && folded("Query"@[0]) == 'q');
    assert(!same_ignoring_case(text, "Query"@));
    assert("Response"@.len() == 8 && text.len() == 5);
    assert("ServiceProvider"@.len() == 15 && text.len() == 5);
    assert("Foreach"@.len() == 7 && text.len() == 5);
    assert("If"@.len() == 2 && text.len() == 5);
    assert(folded(text[0]) == 't' && folded("Scope"@[0]) == 's');
    assert(!same_ignoring_case(text, "Scope"@));
    assert("Switch"@.len() == 6 && text.len() == 5);
    assert(folded(text[0]) == 't' && folded("Until"@[0]) == 'u');
    assert(!same_ignoring_case(text, "Until"@));
    assert("Select"@.len() == 6 && text.len() == 5);
}

proof fn lemma_action_types_28(text: Seq<char>)
    requires
        same_ignoring_case(text, "Terminate"@),
    ensures
        action_spec_of(text) == Some(ActionSpec::Terminate),
{
    reveal_strlit("Terminate");
    reveal_strlit("ApiConnection");
    reveal_strlit("ApiConnectionWebhook");
    reveal_strlit("ApiManagement");
    reveal_strlit("Batch");
    reveal_strlit("SendToBatch");
    reveal_strlit("Compose");
    reveal_strlit("Expression");
    reveal_strlit("FlatFileDecoding");
    reveal_strlit("FlatFileEncoding");
    reveal_strlit("Function");
    reveal_strlit("Http");
    reveal_strlit("HttpWebhook");
    reveal_strlit("IntegrationAccountArtifactLookup");
    reveal_strlit("JavaScriptCode");
    reveal_strlit("Join");
    reveal_strlit("Liquid");
    reveal_strlit("ParseJson");
    reveal_strlit("PowershellCode");
    reveal_strlit("Query");
    reveal_strlit("Response");
    reveal_strlit("ServiceProvider");
    reveal_strlit("Foreach");
    reveal_strlit("If");
    reveal_strlit("Scope");
    reveal_strlit("Switch");
    reveal_strlit("Until");
    reveal_strlit("Select");
    reveal_strlit("Table");
    assert("ApiConnection"@.len() == 13 && text.len() == 9);
    assert("ApiConnectionWebhook"@.len() == 20 && text.len() == 9);
    assert("ApiManagement"@.len() == 13 && text.len() == 9);
    assert("Batch"@.len() == 5 && text.len() == 9);
    assert("SendToBatch"@.len() == 11 && text.len() == 9);
    assert("Compose"@.len() == 7 && text.len() == 9);
    assert("Expression"@.len() == 10 && text.len() == 9);
    assert("FlatFileDecoding"@.len() == 16 && text.len() == 9);
    assert("FlatFileEncoding"@.len() == 16 && text.len() == 9);
    assert("Function"@.len() == 8 && text.len() == 9);
    assert("Http"@.len() == 4 && text.len() == 9);
    assert("HttpWebhook"@.len() == 11 && text.len() == 9);
    assert("IntegrationAccountArtifactLookup"@.len() == 32 && text.len() == 9);
    assert("JavaScriptCode"@.len() == 14 && text.len() == 9);
    assert("Join"@.len() == 4 && text.len() == 9);
    assert("Liquid"@.len() == 6 && text.len() == 9);
    assert(folded(text[0]) == 't' && folded("ParseJson"@[0]) == 'p');
    assert(!same_ignoring_case(text, "ParseJson"@));
    assert("PowershellCode"@.len() == 14 && text.len() == 9);
    assert("Query"@.len() == 5 && text.len() == 9);
    assert("Response"@.len() == 8 && text.len() == 9);
    assert("ServiceProvider"@.len() == 15 && text.len() == 9);
    assert("Foreach"@.len() == 7 && text.len() == 9);
    assert("If"@.len() == 2 && text.len() == 9);
    assert("Scope"@.len() == 5 && text.len() == 9);
    assert("Switch"@.len() == 6 && text.len() == 9);
    assert("Until"@.len() == 5 && text.len() == 9);
    assert("Select"@.len() == 6 && text.len() == 9);
    assert("Table"@.len() == 5 && text.len() == 9);
}

proof fn lemma_action_types_29(text: Seq<char>)
    requires
        same_ignoring_case(text, "AppendToArrayVariable"@),
    ensures
        action_spec_of(text) == Some(ActionSpec::AppendToArrayVariable),
{
    reveal_strlit("AppendToArrayVariable");
    reveal_strlit("ApiConnection");
    reveal_strlit("ApiConnectionWebhook");
    reveal_strlit("ApiManagement");
    reveal_strlit("Batch");
    reveal_strlit("SendToBatch");
    reveal_strlit("Compose");
    reveal_strlit("Expression");
    reveal_strlit("FlatFileDecoding");
    reveal_strlit("FlatFileEncoding");
    reveal_strlit("Function");
    reveal_strlit("Http");
    reveal_strlit("HttpWebhook");
    reveal_strlit("IntegrationAccountArtifactLookup");
    reveal_strlit("JavaScriptCode");
    reveal_strlit("Join");
    reveal_strlit("Liquid");
    reveal_strlit("ParseJson");
    reveal_strlit("PowershellCode");
    reveal_strlit("Query");
    reveal_strlit("Response");
    reveal_strlit("ServiceProvider");
    reveal_strlit("Foreach");
    reveal_strlit("If");
    reveal_strlit("Scope");
    reveal_strlit("Switch");
    reveal_strlit("Until");
    reveal_strlit("Select");
    reveal_strlit("Table");
    reveal_strlit("Terminate");
    assert("ApiConnection"@.len() == 13 && text.len() == 21);
    assert("ApiConnectionWebhook"@.len() == 20 && text.len() == 21);
    assert("ApiManagement"@.len() == 13 && text.len() == 21);
    assert("Batch"@.len() == 5 && text.len() == 21);
    assert("SendToBatch"@.len() == 11 && text.len() == 21);
    assert("Compose"@.len() == 7 && text.len() == 21);
    assert("Expression"@.len() == 10 && text.len() == 21);
    assert("FlatFileDecoding"@.len() == 16 && text.len() == 21);
    assert("FlatFileEncoding"@.len() == 16 && text.len() == 21);
    assert("Function"@.len() == 8 && text.len() == 21);
    assert("Http"@.len() == 4 && text.len() == 21);
    assert("HttpWebhook"@.len() == 11 && text.len() == 21);
    assert("IntegrationAccountArtifactLookup"@.len() == 32 && text.len() == 21);
    assert("JavaScriptCode"@.len() == 14 && text.len() == 21);
    assert("Join"@.len() == 4 && text.len() == 21);
    assert("Liquid"@.len() == 6 && text.len() == 21);
    assert("ParseJson"@.len() == 9 && text.len() == 21);
    assert("PowershellCode"@.len() == 14 && text.len() == 21);
    assert("Query"@.len() == 5 && text.len() == 21);
    assert("Response"@.len() == 8 && text.len() == 21);
    assert("ServiceProvider"@.len() == 15 && text.len() == 21);
    assert("Foreach"@.len() == 7 && text.len() == 21);
    assert("If"@.len() == 2 && text.len() == 21);
    assert("Scope"@.len() == 5 && text.len() == 21);
    assert("Switch"@.len() == 6 && text.len() == 21);
    assert("Until"@.len() == 5 && text.len() == 21);
    assert("Select"@.len() == 6 && text.len() == 21);
    assert("Table"@.len() == 5 && text.len() == 21);
    assert("Terminate"@.len() == 9 && text.len() == 21);
}

proof fn lemma_action_types_30(text: Seq<char>)
    requires
        same_ignoring_case(text, "AppendToStringVariable"@),
    ensures
        action_spec_of(text) == Some(ActionSpec::AppendToStringVariable),
{
    reveal_strlit("AppendToStringVariable");
    reveal_strlit("ApiConnection");
    reveal_strlit("ApiConnectionWebhook");
    reveal_strlit("ApiManagement");
    reveal_strlit("Batch");
    reveal_strlit("SendToBatch");
    reveal_strlit("Compose");
    reveal_strlit("Expression");
    reveal_strlit("FlatFileDecoding");
    reveal_strlit("FlatFileEncoding");
    reveal_strlit("Function");
    reveal_strlit("Http");
    reveal_strlit("HttpWebhook");
    reveal_strlit("IntegrationAccountArtifactLookup");
    reveal_strlit("JavaScriptCode");
    reveal_strlit("Join");
    reveal_strlit("Liquid");
    reveal_strlit("ParseJson");
    reveal_strlit("PowershellCode");
    reveal_strlit("Query");
    reveal_strlit("Response");
    reveal_strlit("ServiceProvider");
    reveal_strlit("Foreach");
    reveal_strlit("If");
    reveal_strlit("Scope");
    reveal_strlit("Switch");
    reveal_strlit("Until");
    reveal_strlit("Select");
    reveal_strlit("Table");
    reveal_strlit("Terminate");
    reveal_strlit("AppendToArrayVariable");
    assert("ApiConnection"@.len() == 13 && text.len() == 22);
    assert("ApiConnectionWebhook"@.len() == 20 && text.len() == 22);
    assert("ApiManagement"@.len() == 13 && text.len() == 22);
    assert("Batch"@.len() == 5 && text.len() == 22);
    assert("SendToBatch"@.len() == 11 && text.len() == 22);
    assert("Compose"@.len() == 7 && text.len() == 22);
    assert("Expression"@.len() == 10 && text.len() == 22);
    assert("FlatFileDecoding"@.len() == 16 && text.len() == 22);
    assert("FlatFileEncoding"@.len() == 16 && text.len() == 22);
    assert("Function"@.len() == 8 && text.len() == 22);
    assert("Http"@.len() == 4 && text.len() == 22);
    assert("HttpWebhook"@.len() == 11 && text.len() == 22);
    assert("IntegrationAccountArtifactLookup"@.len() == 32 && text.len() == 22);
    assert("JavaScriptCode"@.len() == 14 && text.len() == 22);
    assert("Join"@.len() == 4 && text.len() == 22);
    assert("Liquid"@.len() == 6 && text.len() == 22);
    assert("ParseJson"@.len() == 9 && text.len() == 22);
    assert("PowershellCode"@.len() == 14 && text.len() == 22);
    assert("Query"@.len() == 5 && text.len() == 22);
    assert("Response"@.len() == 8 && text.len() == 22);
    assert("ServiceProvider"@.len() == 15 && text.len() == 22);
    assert("Foreach"@.len() == 7 && text.len() == 22);
    assert("If"@.len() == 2 && text.len() == 22);
    assert("Scope"@.len() == 5 && text.len() == 22);
    assert("Switch"@.len() == 6 && text.len() == 22);
    assert("Until"@.len() == 5 && text.len() == 22);
    assert("Select"@.len() == 6 && text.len() == 22);
    assert("Table"@.len() == 5 && text.len() == 22);
    assert("Terminate"@.len() == 9 && text.len() == 22);
    assert("AppendToArrayVariable"@.len() == 21 && text.len() == 22);
}

proof fn lemma_action_types_31(text: Seq<char>)
    requires
        same_ignoring_case(text, "Agent"@),
    ensures
        action_spec_of(text) == Some(ActionSpec::Agent),
{
    reveal_strlit("Agent");
    reveal_strlit("ApiConnection");
    reveal_strlit("ApiConnectionWebhook");
    reveal_strlit("ApiManagement");
    reveal_strlit("Batch");
    reveal_strlit("SendToBatch");
    reveal_strlit("Compose");
    reveal_strlit("Expression");
    reveal_strlit("FlatFileDecoding");
    reveal_strlit("FlatFileEncoding");
    reveal_strlit("Function");
    reveal_strlit("Http");
    reveal_strlit("HttpWebhook");
    reveal_strlit("IntegrationAccountArtifactLookup");
    reveal_strlit("JavaScriptCode");
    reveal_strlit("Join");
    reveal_strlit("Liquid");
    reveal_strlit("ParseJson");
    reveal_strlit("PowershellCode");
    reveal_strlit("Query");
    reveal_strlit("Response");
    reveal_strlit("ServiceProvider");
    reveal_strlit("Foreach");
    reveal_strlit("If");
    reveal_strlit("Scope");
    reveal_strlit("Switch");
    reveal_strlit("Until");
    reveal_strlit("Select");
    reveal_strlit("Table");
    reveal_strlit("Terminate");
    reveal_strlit("AppendToArrayVariable");
    reveal_strlit("AppendToStringVariable");
    assert("ApiConnection"@.len() == 13 && text.len() == 5);
    assert("ApiConnectionWebhook"@.len() == 20 && text.len() == 5);
    assert("ApiManagement"@.len() == 13 && text.len() == 5);
    assert(folded(text[0]) == 'a' && folded("Batch"@[0]) == 'b');
    assert(!same_ignoring_case(text, "Batch"@));
    assert("SendToBatch"@.len() == 11 && text.len() == 5);
    assert("Compose"@.len() == 7 && text.len() == 5);
    assert("Expression"@.len() == 10 && text.len() == 5);
    assert("FlatFileDecoding"@.len() == 16 && text.len() == 5);
    assert("FlatFileEncoding"@.len() == 16 && text.len() == 5);
    assert("Function"@.len() == 8 && text.len() == 5);
    assert("Http"@.len() == 4 && text.len() == 5);
    assert("HttpWebhook"@.len() == 11 && text.len() == 5);
    assert("IntegrationAccountArtifactLookup"@.len() == 32 && text.len() == 5);
    assert("JavaScriptCode"@.len() == 14 && text.len() == 5);
    assert("Join"@.len() == 4 && text.len() == 5);
    assert("Liquid"@.len() == 6 && text.len() == 5);
    assert("ParseJson"@.len() == 9 && text.len() == 5);
    assert("PowershellCode"@.len() == 14 && text.len() == 5);
    assert(folded(text[0]) == 'a' && folded("Query"@[0]) == 'q');
    assert(!same_ignoring_case(text, "Query"@));
    assert("Response"@.len() == 8 && text.len() == 5);
    assert("ServiceProvider"@.len() == 15 && text.len() == 5);
    assert("Foreach"@.len() == 7 && text.len() == 5);
    assert("If"@.len() == 2 && text.len() == 5);
    assert(folded(text[0]) == 'a' && folded("Scope"@[0]) == 's');
    assert(!same_ignoring_case(text, "Scope"@));
    assert("Switch"@.len() == 6 && text.len() == 5);
    assert(folded(text[0]) == 'a' && folded("Until"@[0]) == 'u');
    assert(!same_ignoring_case(text, "Until"@));
    assert("Select"@.len() == 6 && text.len() == 5);
    assert(folded(text[0]) == 'a' && folded("Table"@[0]) == 't');
    assert(!same_ignoring_case(text, "Table"@));
    assert("Terminate"@.len() == 9 && text.len() == 5);
    assert("AppendToArrayVariable"@.len() == 21 && text.len() == 5);
    assert("AppendToStringVariable"@.len() == 22 && text.len() == 5);
}

proof fn lemma_action_types_32(text: Seq<char>)
    requires
        same_ignoring_case(text, "DecrementVariable"@),
    ensures
        action_spec_of(text) == Some(ActionSpec::DecrementVariable),
{
    reveal_strlit("DecrementVariable");
    reveal_strlit("ApiConnection");
    reveal_strlit("ApiConnectionWebhook");
    reveal_strlit("ApiManagement");
    reveal_strlit("Batch");
    reveal_strlit("SendToBatch");
    reveal_strlit("Compose");
    reveal_strlit("Expression");
    reveal_strlit("FlatFileDecoding");
    reveal_strlit("FlatFileEncoding");
    reveal_strlit("Function");
    reveal_strlit("Http");
    reveal_strlit("HttpWebhook");
    reveal_strlit("IntegrationAccountArtifactLookup");
    reveal_strlit("JavaScriptCode");
    reveal_strlit("Join");
    reveal_strlit("Liquid");
    reveal_strlit("ParseJson");
    reveal_strlit("PowershellCode");
    reveal_strlit("Query");
    reveal_strlit("Response");
    reveal_strlit("ServiceProvider");
    reveal_strlit("Foreach");
    reveal_strlit("If");
    reveal_strlit("Scope");
    reveal_strlit("Switch");
    reveal_strlit("Until");
    reveal_strlit("Select");
    reveal_strlit("Table");
    reveal_strlit("Terminate");
    reveal_strlit("AppendToArrayVariable");
    reveal_strlit("AppendToStringVariable");
    reveal_strlit("Agent");
    assert("ApiConnection"@.len() == 13 && text.len() == 17);
    assert("ApiConnectionWebhook"@.len() == 20 && text.len() == 17);
    assert("ApiManagement"@.len() == 13 && text.len() == 17);
    assert("Batch"@.len() == 5 && text.len() == 17);
    assert("SendToBatch"@.len() == 11 && text.len() == 17);
    assert("Compose"@.len() == 7 && text.len() == 17);
    assert("Expression"@.len() == 10 && text.len() == 17);
    assert("FlatFileDecoding"@.len() == 16 && text.len() == 17);
    assert("FlatFileEncoding"@.len() == 16 && text.len() == 17);
    assert("Function"@.len() == 8 && text.len() == 17);
    assert("Http"@.len() == 4 && text.len() == 17);
    assert("HttpWebhook"@.len() == 11 && text.len() == 17);
    assert("IntegrationAccountArtifactLookup"@.len() == 32 && text.len() == 17);
    assert("JavaScriptCode"@.len() == 14 && text.len() == 17);
    assert("Join"@.len() == 4 && text.len() == 17);
    assert("Liquid"@.len() == 6 && text.len() == 17);
    assert("ParseJson"@.len() == 9 && text.len() == 17);
    assert("PowershellCode"@.len() == 14 && text.len() == 17);
    assert("Query"@.len() == 5 && text.len() == 17);
    assert("Response"@.len() == 8 && text.len() == 17);
    assert("ServiceProvider"@.len() == 15 && text.len() == 17);
    assert("Foreach"@.len() == 7 && text.len() == 17);
    assert("If"@.len() == 2 && text.len() == 17);
    assert("Scope"@.len() == 5 && text.len() == 17);
    assert("Switch"@.len() == 6 && text.len() == 17);
    assert("Until"@.len() == 5 && text.len() == 17);
    assert("Select"@.len() == 6 && text.len() == 17);
    assert("Table"@.len() == 5 && text.len() == 17);
    assert("Terminate"@.len() == 9 && text.len() == 17);
    assert("AppendToArrayVariable"@.len() == 21 && text.len() == 17);
    assert("AppendToStringVariable"@.len() == 22 && text.len() == 17);
    assert("Agent"@.len() == 5 && text.len() == 17);
}

proof fn lemma_action_types_33(text: Seq<char>)
    requires
        same_ignoring_case(text, "IncrementVariable"@),
    ensures
        action_spec_of(text) == Some(ActionSpec::IncrementVariable),
{
    reveal_strlit("IncrementVariable");
    reveal_strlit("ApiConnection");
    reveal_strlit("ApiConnectionWebhook");
    reveal_strlit("ApiManagement");
    reveal_strlit("Batch");
    reveal_strlit("SendToBatch");
    reveal_strlit("Compose");
    reveal_strlit("Expression");
    reveal_strlit("FlatFileDecoding");
    reveal_strlit("FlatFileEncoding");
    reveal_strlit("Function");
    reveal_strlit("Http");
    reveal_strlit("HttpWebhook");
    reveal_strlit("IntegrationAccountArtifactLookup");
    reveal_strlit("JavaScriptCode");
    reveal_strlit("Join");
    reveal_strlit("Liquid");
    reveal_strlit("ParseJson");
    reveal_strlit("PowershellCode");
    reveal_strlit("Query");
    reveal_strlit("Response");
    reveal_strlit("ServiceProvider");
    reveal_strlit("Foreach");
    reveal_strlit("If");
    reveal_strlit("Scope");
    reveal_strlit("Switch");
    reveal_strlit("Until");
    reveal_strlit("Select");
    reveal_strlit("Table");
    reveal_strlit("Terminate");
    reveal_strlit("AppendToArrayVariable");
    reveal_strlit("AppendToStringVariable");
    reveal_strlit("Agent");
    reveal_strlit("DecrementVariable");
    assert("ApiConnection"@.len() == 13 && text.len() == 17);
    assert("ApiConnectionWebhook"@.len() == 20 && text.len() == 17);
    assert("ApiManagement"@.len() == 13 && text.len() == 17);
    assert("Batch"@.len() == 5 && text.len() == 17);
    assert("SendToBatch"@.len() == 11 && text.len() == 17);
    assert("Compose"@.len() == 7 && text.len() == 17);
    assert("Expression"@.len() == 10 && text.len() == 17);
    assert("FlatFileDecoding"@.len() == 16 && text.len() == 17);
    assert("FlatFileEncoding"@.len() == 16 && text.len() == 17);
    assert("Function"@.len() == 8 && text.len() == 17);
    assert("Http"@.len() == 4 && text.len() == 17);
    assert("HttpWebhook"@.len() == 11 && text.len() == 17);
    assert("IntegrationAccountArtifactLookup"@.len() == 32 && text.len() == 17);
    assert("JavaScriptCode"@.len() == 14 && text.len() == 17);
    assert("Join"@.len() == 4 && text.len() == 17);
    assert("Liquid"@.len() == 6 && text.len() == 17);
    assert("ParseJson"@.len() == 9 && text.len() == 17);
    assert("PowershellCode"@.len() == 14 && text.len() == 17);
    assert("Query"@.len() == 5 && text.len() == 17);
    assert("Response"@.len() == 8 && text.len() == 17);
    assert("ServiceProvider"@.len() == 15 && text.len() == 17);
    assert("Foreach"@.len() == 7 && text.len() == 17);
    assert("If"@.len() == 2 && text.len() == 17);
    assert("Scope"@.len() == 5 && text.len() == 17);
    assert("Switch"@.len() == 6 && text.len() == 17);
    assert("Until"@.len() == 5 && text.len() == 17);
    assert("Select"@.len() == 6 && text.len() == 17);
    assert("Table"@.len() == 5 && text.len() == 17);
    assert("Terminate"@.len() == 9 && text.len() == 17);
    assert("AppendToArrayVariable"@.len() == 21 && text.len() == 17);
    assert("AppendToStringVariable"@.len() == 22 && text.len() == 17);
    assert("Agent"@.len() == 5 && text.len() == 17);
    assert(folded(text[0]) == 'i' && folded("DecrementVariable"@[0]) == 'd');
    assert(!same_ignoring_case(text, "DecrementVariable"@));
}

proof fn lemma_action_types_34(text: Seq<char>)
    requires
        same_ignoring_case(text, "InitializeVariable"@),
    ensures
        action_spec_of(text) == Some(ActionSpec::InitializeVariable),
{
    reveal_strlit("InitializeVariable");
    reveal_strlit("ApiConnection");
    reveal_strlit("ApiConnectionWebhook");
    reveal_strlit("ApiManagement");
    reveal_strlit("Batch");
    reveal_strlit("SendToBatch");
    reveal_strlit("Compose");
    reveal_strlit("Expression");
    reveal_strlit("FlatFileDecoding");
    reveal_strlit("FlatFileEncoding");
    reveal_strlit("Function");
    reveal_strlit("Http");
    reveal_strlit("HttpWebhook");
    reveal_strlit("IntegrationAccountArtifactLookup");
    reveal_strlit("JavaScriptCode");
    reveal_strlit("Join");
    reveal_strlit("Liquid");
    reveal_strlit("ParseJson");
    reveal_strlit("PowershellCode");
    reveal_strlit("Query");
    reveal_strlit("Response");
    reveal_strlit("ServiceProvider");
    reveal_strlit("Foreach");
    reveal_strlit("If");
    reveal_strlit("Scope");
    reveal_strlit("Switch");
    reveal_strlit("Until");
    reveal_strlit("Select");
    reveal_strlit("Table");
    reveal_strlit("Terminate");
    reveal_strlit("AppendToArrayVariable");
    reveal_strlit("AppendToStringVariable");
    reveal_strlit("Agent");
    reveal_strlit("DecrementVariable");
    reveal_strlit("IncrementVariable");
    assert("ApiConnection"@.len() == 13 && text.len() == 18);
    assert("ApiConnectionWebhook"@.len() == 20 && text.len() == 18);
    assert("ApiManagement"@.len() == 13 && text.len() == 18);
    assert("Batch"@.len() == 5 && text.len() == 18);
    assert("SendToBatch"@.len() == 11 && text.len() == 18);
    assert("Compose"@.len() == 7 && text.len() == 18);
    assert("Expression"@.len() == 10 && text.len() == 18);
    assert("FlatFileDecoding"@.len() == 16 && text.len() == 18);
    assert("FlatFileEncoding"@.len() == 16 && text.len() == 18);
    assert("Function"@.len() == 8 && text.len() == 18);
    assert("Http"@.len() == 4 && text.len() == 18);
    assert("HttpWebhook"@.len() == 11 && text.len() == 18);
    assert("IntegrationAccountArtifactLookup"@.len() == 32 && text.len() == 18);
    assert("JavaScriptCode"@.len() == 14 && text.len() == 18);
    assert("Join"@.len() == 4 && text.len() == 18);
    assert("Liquid"@.len() == 6 && text.len() == 18);
    assert("ParseJson"@.len() == 9 && text.len() == 18);
    assert("PowershellCode"@.len() == 14 && text.len() == 18);
    assert("Query"@.len() == 5 && text.len() == 18);
    assert("Response"@.len() == 8 && text.len() == 18);
    assert("ServiceProvider"@.len() == 15 && text.len() == 18);
    assert("Foreach"@.len() == 7 && text.len() == 18);
    assert("If"@.len() == 2 && text.len() == 18);
    assert("Scope"@.len() == 5 && text.len() == 18);
    assert("Switch"@.len() == 6 && text.len() == 18);
    assert("Until"@.len() == 5 && text.len() == 18);
    assert("Select"@.len() == 6 && text.len() == 18);
    assert("Table"@.len() == 5 && text.len() == 18);
    assert("Terminate"@.len() == 9 && text.len() == 18);
    assert("AppendToArrayVariable"@.len() == 21 && text.len() == 18);
    assert("AppendToStringVariable"@.len() == 22 && text.len() == 18);
    assert("Agent"@.len() == 5 && text.len() == 18);
    assert("DecrementVariable"@.len() == 17 && text.len() == 18);
    assert("IncrementVariable"@.len() == 17 && text.len() == 18);
}

proof fn lemma_action_types_35(text: Seq<char>)
    requires
        same_ignoring_case(text, "SetVariable"@),
    ensures
        action_spec_of(text) == Some(ActionSpec::SetVariable),
{
    reveal_strlit("SetVariable");
    reveal_strlit("ApiConnection");
    reveal_strlit("ApiConnectionWebhook");
    reveal_strlit("ApiManagement");
    reveal_strlit("Batch");
    reveal_strlit("SendToBatch");
    reveal_strlit("Compose");
    reveal_strlit("Expression");
    reveal_strlit("FlatFileDecoding");
    reveal_strlit("FlatFileEncoding");
    reveal_strlit("Function");
    reveal_strlit("Http");
    reveal_strlit("HttpWebhook");
    reveal_strlit("IntegrationAccountArtifactLookup");
    reveal_strlit("JavaScriptCode");
    reveal_strlit("Join");
    reveal_strlit("Liquid");
    reveal_strlit("ParseJson");
    reveal_strlit("PowershellCode");
    reveal_strlit("Query");
    reveal_strlit("Response");
    reveal_strlit("ServiceProvider");
    reveal_strlit("Foreach");
    reveal_strlit("If");
    reveal_strlit("Scope");
    reveal_strlit("Switch");
    reveal_strlit("Until");
    reveal_strlit("Select");
    reveal_strlit("Table");
    reveal_strlit("Terminate");
    reveal_strlit("AppendToArrayVariable");
    reveal_strlit("AppendToStringVariable");
    reveal_strlit("Agent");
    reveal_strlit("DecrementVariable");
    reveal_strlit("IncrementVariable");
    reveal_strlit("InitializeVariable");
    assert("ApiConnection"@.len() == 13 && text.len() == 11);
    assert("ApiConnectionWebhook"@.len() == 20 && text.len() == 11);
    assert("ApiManagement"@.len() == 13 && text.len() == 11);
    assert("Batch"@.len() == 5 && text.len() == 11);
    assert(folded(text[2]) == 't' && folded("SendToBatch"@[2]) == 'n');
    assert(!same_ignoring_case(text, "SendToBatch"@));
    assert("Compose"@.len() == 7 && text.len() == 11);
    assert("Expression"@.len() == 10 && text.len() == 11);
    assert("FlatFileDecoding"@.len() == 16 && text.len() == 11);
    assert("FlatFileEncoding"@.len() == 16 && text.len() == 11);
    assert("Function"@.len() == 8 && text.len() == 11);
    assert("Http"@.len() == 4 && text.len() == 11);
    assert(folded(text[0]) == 's' && folded("HttpWebhook"@[0]) == 'h');
    assert(!same_ignoring_case(text, "HttpWebhook"@));
    assert("IntegrationAccountArtifactLookup"@.len() == 32 && text.len() == 11);
    assert("JavaScriptCode"@.len() == 14 && text.len() == 11);
    assert("Join"@.len() == 4 && text.len() == 11);
    assert("Liquid"@.len() == 6 && text.len() == 11);
    assert("ParseJson"@.len() == 9 && text.len() == 11);
    assert("PowershellCode"@.len() == 14 && text.len() == 11);
    assert("Query"@.len() == 5 && text.len() == 11);
    assert("Response"@.len() == 8 && text.len() == 11);
    assert("ServiceProvider"@.len() == 15 && text.len() == 11);
    assert("Foreach"@.len() == 7 && text.len() == 11);
    assert("If"@.len() == 2 && text.len() == 11);
    assert("Scope"@.len() == 5 && text.len() == 11);
    assert("Switch"@.len() == 6 && text.len() == 11);
    assert("Until"@.len() == 5 && text.len() == 11);
    assert("Select"@.len() == 6 && text.len() == 11);
    assert("Table"@.len() == 5 && text.len() == 11);
    assert("Terminate"@.len() == 9 && text.len() == 11);
    assert("AppendToArrayVariable"@.len() == 21 && text.len() == 11);
    assert("AppendToStringVariable"@.len() == 22 && text.len() == 11);
    assert("Agent"@.len() == 5 && text.len() == 11);
    assert("DecrementVariable"@.len() == 17 && text.len() == 11);
    assert("IncrementVariable"@.len() == 17 && text.len() == 11);
    assert("InitializeVariable"@.len() == 18 && text.len() == 11);
}

proof fn lemma_action_types_36(text: Seq<char>)
    requires
        same_ignoring_case(text, "Wait"@),
    ensures
        action_spec_of(text) == Some(ActionSpec::Wait),
{
    reveal_strlit("Wait");
    reveal_strlit("ApiConnection");
    reveal_strlit("ApiConnectionWebhook");
    reveal_strlit("ApiManagement");
    reveal_strlit("Batch");
    reveal_strlit("SendToBatch");
    reveal_strlit("Compose");
    reveal_strlit("Expression");
    reveal_strlit("FlatFileDecoding");
    reveal_strlit("FlatFileEncoding");
    reveal_strlit("Function");
    reveal_strlit("Http");
    reveal_strlit("HttpWebhook");
    reveal_strlit("IntegrationAccountArtifactLookup");
    reveal_strlit("JavaScriptCode");
    reveal_strlit("Join");
    reveal_strlit("Liquid");
    reveal_strlit("ParseJson");
    reveal_strlit("PowershellCode");
    reveal_strlit("Query");
    reveal_strlit("Response");
    reveal_strlit("ServiceProvider");
    reveal_strlit("Foreach");
    reveal_strlit("If");
    reveal_strlit("Scope");
    reveal_strlit("Switch");
    reveal_strlit("Until");
    reveal_strlit("Select");
    reveal_strlit("Table");
    reveal_strlit("Terminate");
    reveal_strlit("AppendToArrayVariable");
    reveal_strlit("AppendToStringVariable");
    reveal_strlit("Agent");
    reveal_strlit("DecrementVariable");
    reveal_strlit("IncrementVariable");
    reveal_strlit("InitializeVariable");
    reveal_strlit("SetVariable");
    assert("ApiConnection"@.len() == 13 && text.len() == 4);
    assert("ApiConnectionWebhook"@.len() == 20 && text.len() == 4);
    assert("ApiManagement"@.len() == 13 && text.len() == 4);
    assert("Batch"@.len() == 5 && text.len() == 4);
    assert("SendToBatch"@.len() == 11 && text.len() == 4);
    assert("Compose"@.len() == 7 && text.len() == 4);
    assert("Expression"@.len() == 10 && text.len() == 4);
    assert("FlatFileDecoding"@.len() == 16 && text.len() == 4);
    assert("FlatFileEncoding"@.len() == 16 && text.len() == 4);
    assert("Function"@.len() == 8 && text.len() == 4);
    assert(folded(text[0]) == 'w' && folded("Http"@[0]) == 'h');
    assert(!same_ignoring_case(text, "Http"@));
    assert("HttpWebhook"@.len() == 11 && text.len() == 4);
    assert("IntegrationAccountArtifactLookup"@.len() == 32 && text.len() == 4);
    assert("JavaScriptCode"@.len() == 14 && text.len() == 4);
    assert(folded(text[0]) == 'w' && folded("Join"@[0]) == 'j');
    assert(!same_ignoring_case(text, "Join"@));
    assert("Liquid"@.len() == 6 && text.len() == 4);
    assert("ParseJson"@.len() == 9 && text.len() == 4);
    assert("PowershellCode"@.len() == 14 && text.len() == 4);
    assert("Query"@.len() == 5 && text.len() == 4);
    assert("Response"@.len() == 8 && text.len() == 4);
    assert("ServiceProvider"@.len() == 15 && text.len() == 4);
    assert("Foreach"@.len() == 7 && text.len() == 4);
    assert("If"@.len() == 2 && text.len() == 4);
    assert("Scope"@.len() == 5 && text.len() == 4);
    assert("Switch"@.len() == 6 && text.len() == 4);
    assert("Until"@.len() == 5 && text.len() == 4);
    assert("Select"@.len() == 6 && text.len() == 4);
    assert("Table"@.len() == 5 && text.len() == 4);
    assert("Terminate"@.len() == 9 && text.len() == 4);
    assert("AppendToArrayVariable"@.len() == 21 && text.len() == 4);
    assert("AppendToStringVariable"@.len() == 22 && text.len() == 4);
    assert("Agent"@.len() == 5 && text.len() == 4);
    assert("DecrementVariable"@.len() == 17 && text.len() == 4);
    assert("IncrementVariable"@.len() == 17 && text.len() == 4);
    assert("InitializeVariable"@.len() == 18 && text.len() == 4);
    assert("SetVariable"@.len() == 11 && text.len() == 4);
}

proof fn lemma_action_types_37(text: Seq<char>)
    requires
        same_ignoring_case(text, "Workflow"@),
    ensures
        action_spec_of(text) == Some(ActionSpec::Workflow),
{
    reveal_strlit("Workflow");
    reveal_strlit("ApiConnection");
    reveal_strlit("ApiConnectionWebhook");
    reveal_strlit("ApiManagement");
    reveal_strlit("Batch");
    reveal_strlit("SendToBatch");
    reveal_strlit("Compose");
    reveal_strlit("Expression");
    reveal_strlit("FlatFileDecoding");
    reveal_strlit("FlatFileEncoding");
    reveal_strlit("Function");
    reveal_strlit("Http");
    reveal_strlit("HttpWebhook");
    reveal_strlit("IntegrationAccountArtifactLookup");
    reveal_strlit("JavaScriptCode");
    reveal_strlit("Join");
    reveal_strlit("Liquid");
    reveal_strlit("ParseJson");
    reveal_strlit("PowershellCode");
    reveal_strlit("Query");
    reveal_strlit("Response");
    reveal_strlit("ServiceProvider");
    reveal_strlit("Foreach");
    reveal_strlit("If");
    reveal_strlit("Scope");
    reveal_strlit("Switch");
    reveal_strlit("Until");
    reveal_strlit("Select");
    reveal_strlit("Table");
    reveal_strlit("Terminate");
    reveal_strlit("AppendToArrayVariable");
    reveal_strlit("AppendToStringVariable");
    reveal_strlit("Agent");
    reveal_strlit("DecrementVariable");
    reveal_strlit("IncrementVariable");
    reveal_strlit("InitializeVariable");
    reveal_strlit("SetVariable");
    reveal_strlit("Wait");
    assert("ApiConnection"@.len() == 13 && text.len() == 8);
    assert("ApiConnectionWebhook"@.len() == 20 && text.len() == 8);
    assert("ApiManagement"@.len() == 13 && text.len() == 8);
    assert("Batch"@.len() == 5 && text.len() == 8);
    assert("SendToBatch"@.len() == 11 && text.len() == 8);
    assert("Compose"@.len() == 7 && text.len() == 8);
    assert("Expression"@.len() == 10 && text.len() == 8);
    assert("FlatFileDecoding"@.len() == 16 && text.len() == 8);
    assert("FlatFileEncoding"@.len() == 16 && text.len() == 8);
    assert(folded(text[0]) == 'w' && folded("Function"@[0]) == 'f');
    assert(!same_ignoring_case(text, "Function"@));
    assert("Http"@.len() == 4 && text.len() == 8);
    assert("HttpWebhook"@.len() == 11 && text.len() == 8);
    assert("IntegrationAccountArtifactLookup"@.len() == 32 && text.len() == 8);
    assert("JavaScriptCode"@.len() == 14 && text.len() == 8);
    assert("Join"@.len() == 4 && text.len() == 8);
    assert("Liquid"@.len() == 6 && text.len() == 8);
    assert("ParseJson"@.len() == 9 && text.len() == 8);
    assert("PowershellCode"@.len() == 14 && text.len() == 8);
    assert("Query"@.len() == 5 && text.len() == 8);
    assert(folded(text[0]) == 'w' && folded("Response"@[0]) == 'r');
    assert(!same_ignoring_case(text, "Response"@));
    assert("ServiceProvider"@.len() == 15 && text.len() == 8);
    assert("Foreach"@.len() == 7 && text.len() == 8);
    assert("If"@.len() == 2 && text.len() == 8);
    assert("Scope"@.len() == 5 && text.len() == 8);
    assert("Switch"@.len() == 6 && text.len() == 8);
    assert("Until"@.len() == 5 && text.len() == 8);
    assert("Select"@.len() == 6 && text.len() == 8);
    assert("Table"@.len() == 5 && text.len() == 8);
    assert("Terminate"@.len() == 9 && text.len() == 8);
    assert("AppendToArrayVariable"@.len() == 21 && text.len() == 8);
    assert("AppendToStringVariable"@.len() == 22 && text.len() == 8);
    assert("Agent"@.len() == 5 && text.len() == 8);
    assert("DecrementVariable"@.len() == 17 && text.len() == 8);
    assert("IncrementVariable"@.len() == 17 && text.len() == 8);
    assert("InitializeVariable"@.len() == 18 && text.len() == 8);
    assert("SetVariable"@.len() == 11 && text.len() == 8);
    assert("Wait"@.len() == 4 && text.len() == 8);
}

proof fn lemma_action_types_38(text: Seq<char>)
    requires
        same_ignoring_case(text, "XmlValidation"@),
    ensures
        action_spec_of(text) == Some(ActionSpec::XmlValidation),
{
    reveal_strlit("XmlValidation");
    reveal_strlit("ApiConnection");
    reveal_strlit("ApiConnectionWebhook");
    reveal_strlit("ApiManagement");
    reveal_strlit("Batch");
    reveal_strlit("SendToBatch");
    reveal_strlit("Compose");
    reveal_strlit("Expression");
    reveal_strlit("FlatFileDecoding");
    reveal_strlit("FlatFileEncoding");
    reveal_strlit("Function");
    reveal_strlit("Http");
    reveal_strlit("HttpWebhook");
    reveal_strlit("IntegrationAccountArtifactLookup");
    reveal_strlit("JavaScriptCode");
    reveal_strlit("Join");
    reveal_strlit("Liquid");
    reveal_strlit("ParseJson");
    reveal_strlit("PowershellCode");
    reveal_strlit("Query");
    reveal_strlit("Response");
    reveal_strlit("ServiceProvider");
    reveal_strlit("Foreach");
    reveal_strlit("If");
    reveal_strlit("Scope");
    reveal_strlit("Switch");
    reveal_strlit("Until");
    reveal_strlit("Select");
    reveal_strlit("Table");
    reveal_strlit("Terminate");
    reveal_strlit("AppendToArrayVariable");
    reveal_strlit("AppendToStringVariable");
    reveal_strlit("Agent");
    reveal_strlit("DecrementVariable");
    reveal_strlit("IncrementVariable");
    reveal_strlit("InitializeVariable");
    reveal_strlit("SetVariable");
    reveal_strlit("Wait");
    reveal_strlit("Workflow");
    assert(folded(text[0]) == 'x' && folded("ApiConnection"@[0]) == 'a');
    assert(!same_ignoring_case(text, "ApiConnection"@));
    assert("ApiConnectionWebhook"@.len() == 20 && text.len() == 13);
    assert(folded(text[0]) == 'x' && folded("ApiManagement"@[0]) == 'a');
    assert(!same_ignoring_case(text, "ApiManagement"@));
    assert("Batch"@.len() == 5 && text.len() == 13);
    assert("SendToBatch"@.len() == 11 && text.len() == 13);
    assert("Compose"@.len() == 7 && text.len() == 13);
    assert("Expression"@.len() == 10 && text.len() == 13);
    assert("FlatFileDecoding"@.len() == 16 && text.len() == 13);
    assert("FlatFileEncoding"@.len() == 16 && text.len() == 13);
    assert("Function"@.len() == 8 && text.len() == 13);
    assert("Http"@.len() == 4 && text.len() == 13);
    assert("HttpWebhook"@.len() == 11 && text.len() == 13);
    assert("IntegrationAccountArtifactLookup"@.len() == 32 && text.len() == 13);
    assert("JavaScriptCode"@.len() == 14 && text.len() == 13);
    assert("Join"@.len() == 4 && text.len() == 13);
    assert("Liquid"@.len() == 6 && text.len() == 13);
    assert("ParseJson"@.len() == 9 && text.len() == 13);
    assert("PowershellCode"@.len() == 14 && text.len() == 13);
    assert("Query"@.len() == 5 && text.len() == 13);
    assert("Response"@.len() == 8 && text.len() == 13);
    assert("ServiceProvider"@.len() == 15 && text.len() == 13);
    assert("Foreach"@.len() == 7 && text.len() == 13);
    assert("If"@.len() == 2 && text.len() == 13);
    assert("Scope"@.len() == 5 && text.len() == 13);
    assert("Switch"@.len() == 6 && text.len() == 13);
    assert("Until"@.len() == 5 && text.len() == 13);
    assert("Select"@.len() == 6 && text.len() == 13);
    assert("Table"@.len() == 5 && text.len() == 13);
    assert("Terminate"@.len() == 9 && text.len() == 13);
    assert("AppendToArrayVariable"@.len() == 21 && text.len() == 13);
    assert("AppendToStringVariable"@.len() == 22 && text.len() == 13);
    assert("Agent"@.len() == 5 && text.len() == 13);
    assert("DecrementVariable"@.len() == 17 && text.len() == 13);
    assert("IncrementVariable"@.len() == 17 && text.len() == 13);
    assert("InitializeVariable"@.len() == 18 && text.len() == 13);
    assert("SetVariable"@.len() == 11 && text.len() == 13);
    assert("Wait"@.len() == 4 && text.len() == 13);
    assert("Workflow"@.len() == 8 && text.len() == 13);
}

proof fn lemma_action_types_39(text: Seq<char>)
    requires
        same_ignoring_case(text, "Xslt"@),
    ensures
        action_spec_of(text) == Some(ActionSpec::Xslt),
{
    reveal_strlit("Xslt");
    reveal_strlit("ApiConnection");
    reveal_strlit("ApiConnectionWebhook");
    reveal_strlit("ApiManagement");
    reveal_strlit("Batch");
    reveal_strlit("SendToBatch");
    reveal_strlit("Compose");
    reveal_strlit("Expression");
    reveal_strlit("FlatFileDecoding");
    reveal_strlit("FlatFileEncoding");
    reveal_strlit("Function");
    reveal_strlit("Http");
    reveal_strlit("HttpWebhook");
    reveal_strlit("IntegrationAccountArtifactLookup");
    reveal_strlit("JavaScriptCode");
    reveal_strlit("Join");
    reveal_strlit("Liquid");
    reveal_strlit("ParseJson");
    reveal_strlit("PowershellCode");
    reveal_strlit("Query");
    reveal_strlit("Response");
    reveal_strlit("ServiceProvider");
    reveal_strlit("Foreach");
    reveal_strlit("If");
    reveal_strlit("Scope");
    reveal_strlit("Switch");
    reveal_strlit("Until");
    reveal_strlit("Select");
    reveal_strlit("Table");
    reveal_strlit("Terminate");
    reveal_strlit("AppendToArrayVariable");
    reveal_strlit("AppendToStringVariable");
    reveal_strlit("Agent");
    reveal_strlit("DecrementVariable");
    reveal_strlit("IncrementVariable");
    reveal_strlit("InitializeVariable");
    reveal_strlit("SetVariable");
    reveal_strlit("Wait");
    reveal_strlit("Workflow");
    reveal_strlit("XmlValidation");
    assert("ApiConnection"@.len() == 13 && text.len() == 4);
    assert("ApiConnectionWebhook"@.len() == 20 && text.len() == 4);
    assert("ApiManagement"@.len() == 13 && text.len() == 4);
    assert("Batch"@.len() == 5 && text.len() == 4);
    assert("SendToBatch"@.len() == 11 && text.len() == 4);
    assert("Compose"@.len() == 7 && text.len() == 4);
    assert("Expression"@.len() == 10 && text.len() == 4);
    assert("FlatFileDecoding"@.len() == 16 && text.len() == 4);
    assert("FlatFileEncoding"@.len() == 16 && text.len() == 4);
    assert("Function"@.len() == 8 && text.len() == 4);
    assert(folded(text[0]) == 'x' && folded("Http"@[0]) == 'h');
    assert(!same_ignoring_case(text, "Http"@));
    assert("HttpWebhook"@.len() == 11 && text.len() == 4);
    assert("IntegrationAccountArtifactLookup"@.len() == 32 && text.len() == 4);
    assert("JavaScriptCode"@.len() == 14 && text.len() == 4);
    assert(folded(text[0]) == 'x' && folded("Join"@[0]) == 'j');
    assert(!same_ignoring_case(text, "Join"@));
    assert("Liquid"@.len() == 6 && text.len() == 4);
    assert("ParseJson"@.len() == 9 && text.len() == 4);
    assert("PowershellCode"@.len() == 14 && text.len() == 4);
    assert("Query"@.len() == 5 && text.len() == 4);
    assert("Response"@.len() == 8 && text.len() == 4);
    assert("ServiceProvider"@.len() == 15 && text.len() == 4);
    assert("Foreach"@.len() == 7 && text.len() == 4);
    assert("If"@.len() == 2 && text.len() == 4);
    assert("Scope"@.len() == 5 && text.len() == 4);
    assert("Switch"@.len() == 6 && text.len() == 4);
    assert("Until"@.len() == 5 && text.len() == 4);
    assert("Select"@.len() == 6 && text.len() == 4);
    assert("Table"@.len() == 5 && text.len() == 4);
    assert("Terminate"@.len() == 9 && text.len() == 4);
    assert("AppendToArrayVariable"@.len() == 21 && text.len() == 4);
    assert("AppendToStringVariable"@.len() == 22 && text.len() == 4);
    assert("Agent"@.len() == 5 && text.len() == 4);
    assert("DecrementVariable"@.len() == 17 && text.len() == 4);
    assert("IncrementVariable"@.len() == 17 && text.len() == 4);
    assert("InitializeVariable"@.len() == 18 && text.len() == 4);
    assert("SetVariable"@.len() == 11 && text.len() == 4);
    assert(folded(text[0]) == 'x' && folded("Wait"@[0]) == 'w');
    assert(!same_ignoring_case(text, "Wait"@));
    assert("Workflow"@.len() == 8 && text.len() == 4);
    assert("XmlValidation"@.len() == 13 && text.len() == 4);
}

/// The types of actions.
pub proof fn lemma_action_types(text: Seq<char>)
    ensures
        same_ignoring_case(text, "ApiConnection"@) ==> action_spec_of(text) == Some(ActionSpec::ApiConnection),
        same_ignoring_case(text, "ApiConnectionWebhook"@) ==> action_spec_of(text) == Some(ActionSpec::ApiConnectionWebhook),
        same_ignoring_case(text, "ApiManagement"@) ==> action_spec_of(text) == Some(ActionSpec::ApiManagement),
        same_ignoring_case(text, "Batch"@) ==> action_spec_of(text) == Some(ActionSpec::Batch),
        same_ignoring_case(text, "SendToBatch"@) ==> action_spec_of(text) == Some(ActionSpec::SendToBatch),
        same_ignoring_case(text, "Compose"@) ==> action_spec_of(text) == Some(ActionSpec::Compose),
        same_ignoring_case(text, "Expression"@) ==> action_spec_of(text) == Some(ActionSpec::Expression),
        same_ignoring_case(text, "FlatFileDecoding"@) ==> action_spec_of(text) == Some(ActionSpec::FlatFileDecoding),
        same_ignoring_case(text, "FlatFileEncoding"@) ==> action_spec_of(text) == Some(ActionSpec::FlatFileEncoding),
        same_ignoring_case(text, "Function"@) ==> action_spec_of(text) == Some(ActionSpec::Function),
        same_ignoring_case(text, "Http"@) ==> action_spec_of(text) == Some(ActionSpec::Http),
        same_ignoring_case(text, "HttpWebhook"@) ==> action_spec_of(text) == Some(ActionSpec::HttpWebhook),
        same_ignoring_case(text, "IntegrationAccountArtifactLookup"@) ==> action_spec_of(text) == Some(ActionSpec::IntegrationAccountArtifactLookup),
        same_ignoring_case(text, "JavaScriptCode"@) ==> action_spec_of(text) == Some(ActionSpec::JavaScriptCode),
        same_ignoring_case(text, "Join"@) ==> action_spec_of(text) == Some(ActionSpec::Join),
        same_ignoring_case(text, "Liquid"@) ==> action_spec_of(text) == Some(ActionSpec::Liquid),
        same_ignoring_case(text, "ParseJson"@) ==> action_spec_of(text) == Some(ActionSpec::ParseJson),
        same_ignoring_case(text, "PowershellCode"@) ==> action_spec_of(text) == Some(ActionSpec::PowershellCode),
        same_ignoring_case(text, "Query"@) ==> action_spec_of(text) == Some(ActionSpec::Query),
        same_ignoring_case(text, "Response"@) ==> action_spec_of(text) == Some(ActionSpec::Response),
        same_ignoring_case(text, "ServiceProvider"@) ==> action_spec_of(text) == Some(ActionSpec::ServiceProvider),
        same_ignoring_case(text, "Foreach"@) ==> action_spec_of(text) == Some(ActionSpec::Foreach),
        same_ignoring_case(text, "If"@) ==> action_spec_of(text) == Some(ActionSpec::If),
        same_ignoring_case(text, "Scope"@) ==> action_spec_of(text) == Some(ActionSpec::Scope),
        same_ignoring_case(text, "Switch"@) ==> action_spec_of(text) == Some(ActionSpec::Switch),
        same_ignoring_case(text, "Until"@) ==> action_spec_of(text) == Some(ActionSpec::Until),
        same_ignoring_case(text, "Select"@) ==> action_spec_of(text) == Some(ActionSpec::Select),
        same_ignoring_case(text, "Table"@) ==> action_spec_of(text) == Some(ActionSpec::Table),
        same_ignoring_case(text, "Terminate"@) ==> action_spec_of(text) == Some(ActionSpec::Terminate),
        same_ignoring_case(text, "AppendToArrayVariable"@) ==> action_spec_of(text) == Some(ActionSpec::AppendToArrayVariable),
        same_ignoring_case(text, "AppendToStringVariable"@) ==> action_spec_of(text) == Some(ActionSpec::AppendToStringVariable),
        same_ignoring_case(text, "Agent"@) ==> action_spec_of(text) == Some(ActionSpec::Agent),
        same_ignoring_case(text, "DecrementVariable"@) ==> action_spec_of(text) == Some(ActionSpec::DecrementVariable),
        same_ignoring_case(text, "IncrementVariable"@) ==> action_spec_of(text) == Some(ActionSpec::IncrementVariable),
        same_ignoring_case(text, "InitializeVariable"@) ==> action_spec_of(text) == Some(ActionSpec::InitializeVariable),
        same_ignoring_case(text, "SetVariable"@) ==> action_spec_of(text) == Some(ActionSpec::SetVariable),
        same_ignoring_case(text, "Wait"@) ==> action_spec_of(text) == Some(ActionSpec::Wait),
        same_ignoring_case(text, "Workflow"@) ==> action_spec_of(text) == Some(ActionSpec::Workflow),
        same_ignoring_case(text, "XmlValidation"@) ==> action_spec_of(text) == Some(ActionSpec::XmlValidation),
        same_ignoring_case(text, "Xslt"@) ==> action_spec_of(text) == Some(ActionSpec::Xslt),
        (!same_ignoring_case(text, "ApiConnection"@) && !same_ignoring_case(text, "ApiConnectionWebhook"@) && !same_ignoring_case(text, "ApiManagement"@) && !same_ignoring_case(text, "Batch"@) && !same_ignoring_case(text, "SendToBatch"@) && !same_ignoring_case(text, "Compose"@) && !same_ignoring_case(text, "Expression"@) && !same_ignoring_case(text, "FlatFileDecoding"@) && !same_ignoring_case(text, "FlatFileEncoding"@) && !same_ignoring_case(text, "Function"@) && !same_ignoring_case(text, "Http"@) && !same_ignoring_case(text, "HttpWebhook"@) && !same_ignoring_case(text, "IntegrationAccountArtifactLookup"@) && !same_ignoring_case(text, "JavaScriptCode"@) && !same_ignoring_case(text, "Join"@) && !same_ignoring_case(text, "Liquid"@) && !same_ignoring_case(text, "ParseJson"@) && !same_ignoring_case(text, "PowershellCode"@) && !same_ignoring_case(text, "Query"@) && !same_ignoring_case(text, "Response"@) && !same_ignoring_case(text, "ServiceProvider"@) && !same_ignoring_case(text, "Foreach"@) && !same_ignoring_case(text, "If"@) && !same_ignoring_case(text, "Scope"@) && !same_ignoring_case(text, "Switch"@) && !same_ignoring_case(text, "Until"@) && !same_ignoring_case(text, "Select"@) && !same_ignoring_case(text, "Table"@) && !same_ignoring_case(text, "Terminate"@) && !same_ignoring_case(text, "AppendToArrayVariable"@) && !same_ignoring_case(text, "AppendToStringVariable"@) && !same_ignoring_case(text, "Agent"@) && !same_ignoring_case(text, "DecrementVariable"@) && !same_ignoring_case(text, "IncrementVariable"@) && !same_ignoring_case(text, "InitializeVariable"@) && !same_ignoring_case(text, "SetVariable"@) && !same_ignoring_case(text, "Wait"@) && !same_ignoring_case(text, "Workflow"@) && !same_ignoring_case(text, "XmlValidation"@) && !same_ignoring_case(text, "Xslt"@)) ==> action_spec_of(text) is None,
{
    if same_ignoring_case(text, "ApiConnection"@) {
        lemma_action_types_0(text);
    }
    if same_ignoring_case(text, "ApiConnectionWebhook"@) {
        lemma_action_types_1(text);
    }
    if same_ignoring_case(text, "ApiManagement"@) {
        lemma_action_types_2(text);
    }
    if same_ignoring_case(text, "Batch"@) {
        lemma_action_types_3(text);
    }
    if same_ignoring_case(text, "SendToBatch"@) {
        lemma_action_types_4(text);
    }
    if same_ignoring_case(text, "Compose"@) {
        lemma_action_types_5(text);
    }
    if same_ignoring_case(text, "Expression"@) {
        lemma_action_types_6(text);
    }
    if same_ignoring_case(text, "FlatFileDecoding"@) {
        lemma_action_types_7(text);
    }
    if same_ignoring_case(text, "FlatFileEncoding"@) {
        lemma_action_types_8(text);
    }
    if same_ignoring_case(text, "Function"@) {
        lemma_action_types_9(text);
    }
    if same_ignoring_case(text, "Http"@) {
        lemma_action_types_10(text);
    }
    if same_ignoring_case(text, "HttpWebhook"@) {
        lemma_action_types_11(text);
    }
    if same_ignoring_case(text, "IntegrationAccountArtifactLookup"@) {
        lemma_action_types_12(text);
    }
    if same_ignoring_case(text, "JavaScriptCode"@) {
        lemma_action_types_13(text);
    }
    if same_ignoring_case(text, "Join"@) {
        lemma_action_types_14(text);
    }
    if same_ignoring_case(text, "Liquid"@) {
        lemma_action_types_15(text);
    }
    if same_ignoring_case(text, "ParseJson"@) {
        lemma_action_types_16(text);
    }
    if same_ignoring_case(text, "PowershellCode"@) {
        lemma_action_types_17(text);
    }
    if same_ignoring_case(text, "Query"@) {
        lemma_action_types_18(text);
    }
    if same_ignoring_case(text, "Response"@) {
        lemma_action_types_19(text);
    }
    if same_ignoring_case(text, "ServiceProvider"@) {
        lemma_action_types_20(text);
    }
    if same_ignoring_case(text, "Foreach"@) {
        lemma_action_types_21(text);
    }
    if same_ignoring_case(text, "If"@) {
        lemma_action_types_22(text);
    }
    if same_ignoring_case(text, "Scope"@) {
        lemma_action_types_23(text);
    }
    if same_ignoring_case(text, "Switch"@) {
        lemma_action_types_24(text);
    }
    if same_ignoring_case(text, "Until"@) {
        lemma_action_types_25(text);
    }
    if same_ignoring_case(text, "Select"@) {
        lemma_action_types_26(text);
    }
    if same_ignoring_case(text, "Table"@) {
        lemma_action_types_27(text);
    }
    if same_ignoring_case(text, "Terminate"@) {
        lemma_action_types_28(text);
    }
    if same_ignoring_case(text, "AppendToArrayVariable"@) {
        lemma_action_types_29(text);
    }
    if same_ignoring_case(text, "AppendToStringVariable"@) {
        lemma_action_types_30(text);
    }
    if same_ignoring_case(text, "Agent"@) {
        lemma_action_types_31(text);
    }
    if same_ignoring_case(text, "DecrementVariable"@) {
        lemma_action_types_32(text);
    }
    if same_ignoring_case(text, "IncrementVariable"@) {
        lemma_action_types_33(text);
    }
    if same_ignoring_case(text, "InitializeVariable"@) {
        lemma_action_types_34(text);
    }
    if same_ignoring_case(text, "SetVariable"@) {
        lemma_action_types_35(text);
    }
    if same_ignoring_case(text, "Wait"@) {
        lemma_action_types_36(text);
    }
    if same_ignoring_case(text, "Workflow"@) {
        lemma_action_types_37(text);
    }
    if same_ignoring_case(text, "XmlValidation"@) {
        lemma_action_types_38(text);
    }
    if same_ignoring_case(text, "Xslt"@) {
        lemma_action_types_39(text);
    }
}

proof fn lemma_trigger_types_0(text: Seq<char>)
    requires
        same_ignoring_case(text, "ApiConnection"@),
    ensures
        trigger_spec_of(text) == Some(TriggerSpec::ApiConnection),
{
    reveal_strlit("ApiConnection");
}

proof fn lemma_trigger_types_1(text: Seq<char>)
    requires
        same_ignoring_case(text, "ApiConnectionWebhook"@),
    ensures
        trigger_spec_of(text) == Some(TriggerSpec::ApiConnectionWebhook),
{
    reveal_strlit("ApiConnectionWebhook");
    reveal_strlit("ApiConnection");
    assert("ApiConnection"@.len() == 13 && text.len() == 20);
}

proof fn lemma_trigger_types_2(text: Seq<char>)
    requires
        same_ignoring_case(text, "ApiManagement"@),
    ensures
        trigger_spec_of(text) == Some(TriggerSpec::ApiManagement),
{
    reveal_strlit("ApiManagement");
    reveal_strlit("ApiConnection");
    reveal_strlit("ApiConnectionWebhook");
    assert(folded(text[3]) == 'm' && folded("ApiConnection"@[3]) == 'c');
    assert(!same_ignoring_case(text, "ApiConnection"@));
    assert("ApiConnectionWebhook"@.len() == 20 && text.len() == 13);
}

proof fn lemma_trigger_types_3(text: Seq<char>)
    requires
        same_ignoring_case(text, "Batch"@),
    ensures
        trigger_spec_of(text) == Some(TriggerSpec::Batch),
{
    reveal_strlit("Batch");
    reveal_strlit("ApiConnection");
    reveal_strlit("ApiConnectionWebhook");
    reveal_strlit("ApiManagement");
    assert("ApiConnection"@.len() == 13 && text.len() == 5);
    assert("ApiConnectionWebhook"@.len() == 20 && text.len() == 5);
    assert("ApiManagement"@.len() == 13 && text.len() == 5);
}

proof fn lemma_trigger_types_4(text: Seq<char>)
    requires
        same_ignoring_case(text, "Http"@),
    ensures
        trigger_spec_of(text) == Some(TriggerSpec::Http),
{
    reveal_strlit("Http");
    reveal_strlit("ApiConnection");
    reveal_strlit("ApiConnectionWebhook");
    reveal_strlit("ApiManagement");
    reveal_strlit("Batch");
    assert("ApiConnection"@.len() == 13 && text.len() == 4);
    assert("ApiConnectionWebhook"@.len() == 20 && text.len() == 4);
    assert("ApiManagement"@.len() == 13 && text.len() == 4);
    assert("Batch"@.len() == 5 && text.len() == 4);
}

proof fn lemma_trigger_types_5(text: Seq<char>)
    requires
        same_ignoring_case(text, "HttpWebhook"@),
    ensures
        trigger_spec_of(text) == Some(TriggerSpec::HttpWebhook),
{
    reveal_strlit("HttpWebhook");
    reveal_strlit("ApiConnection");
    reveal_strlit("ApiConnectionWebhook");
    reveal_strlit("ApiManagement");
    reveal_strlit("Batch");
    reveal_strlit("Http");
    assert("ApiConnection"@.len() == 13 && text.len() == 11);
    assert("ApiConnectionWebhook"@.len() == 20 && text.len() == 11);
    assert("ApiManagement"@.len() == 13 && text.len() == 11);
    assert("Batch"@.len() == 5 && text.len() == 11);
    assert("Http"@.len() == 4 && text.len() == 11);
}

proof fn lemma_trigger_types_6(text: Seq<char>)
    requires
        same_ignoring_case(text, "Recurrence"@),
    ensures
        trigger_spec_of(text) == Some(TriggerSpec::Recurrence),
{
    reveal_strlit("Recurrence");
    reveal_strlit("ApiConnection");
    reveal_strlit("ApiConnectionWebhook");
    reveal_strlit("ApiManagement");
    reveal_strlit("Batch");
    reveal_strlit("Http");
    reveal_strlit("HttpWebhook");
    assert("ApiConnection"@.len() == 13 && text.len() == 10);
    assert("ApiConnectionWebhook"@.len() == 20 && text.len() == 10);
    assert("ApiManagement"@.len() == 13 && text.len() == 10);
    assert("Batch"@.len() == 5 && text.len() == 10);
    assert("Http"@.len() == 4 && text.len() == 10);
    assert("HttpWebhook"@.len() == 11 && text.len() == 10);
}

proof fn lemma_trigger_types_7(text: Seq<char>)
    requires
        same_ignoring_case(text, "Request"@),
    ensures
        trigger_spec_of(text) == Some(TriggerSpec::Request),
{
    reveal_strlit("Request");
    reveal_strlit("ApiConnection");
    reveal_strlit("ApiConnectionWebhook");
    reveal_strlit("ApiManagement");
    reveal_strlit("Batch");
    reveal_strlit("Http");
    reveal_strlit("HttpWebhook");
    reveal_strlit("Recurrence");
    assert("ApiConnection"@.len() == 13 && text.len() == 7);
    assert("ApiConnectionWebhook"@.len() == 20 && text.len() == 7);
    assert("ApiManagement"@.len() == 13 && text.len() == 7);
    assert("Batch"@.len() == 5 && text.len() == 7);
    assert("Http"@.len() == 4 && text.len() == 7);
    assert("HttpWebhook"@.len() == 11 && text.len() == 7);
    assert("Recurrence"@.len() == 10 && text.len() == 7);
}

proof fn lemma_trigger_types_8(text: Seq<char>)
    requires
        same_ignoring_case(text, "ServiceProvider"@),
    ensures
        trigger_spec_of(text) == Some(TriggerSpec::ServiceProvider),
{
    reveal_strlit("ServiceProvider");
    reveal_strlit("ApiConnection");
    reveal_strlit("ApiConnectionWebhook");
    reveal_strlit("ApiManagement");
    reveal_strlit("Batch");
    reveal_strlit("Http");
    reveal_strlit("HttpWebhook");
    reveal_strlit("Recurrence");
    reveal_strlit("Request");
    assert("ApiConnection"@.len() == 13 && text.len() == 15);
    assert("ApiConnectionWebhook"@.len() == 20 && text.len() == 15);
    assert("ApiManagement"@.len() == 13 && text.len() == 15);
    assert("Batch"@.len() == 5 && text.len() == 15);
    assert("Http"@.len() == 4 && text.len() == 15);
    assert("HttpWebhook"@.len() == 11 && text.len() == 15);
    assert("Recurrence"@.len() == 10 && text.len() == 15);
    assert("Request"@.len() == 7 && text.len() == 15);
}

proof fn lemma_trigger_types_9(text: Seq<char>)
    requires
        same_ignoring_case(text, "SlidingWindow"@),
    ensures
        trigger_spec_of(text) == Some(TriggerSpec::SlidingWindow),
{
    reveal_strlit("SlidingWindow");
    reveal_strlit("ApiConnection");
    reveal_strlit("ApiConnectionWebhook");
    reveal_strlit("ApiManagement");
    reveal_strlit("Batch");
    reveal_strlit("Http");
    reveal_strlit("HttpWebhook");
    reveal_strlit("Recurrence");
    reveal_strlit("Request");
    reveal_strlit("ServiceProvider");
    assert(folded(text[0]) == 's' && folded("ApiConnection"@[0]) == 'a');
    assert(!same_ignoring_case(text, "ApiConnection"@));
    assert("ApiConnectionWebhook"@.len() == 20 && text.len() == 13);
    assert(folded(text[0]) == 's' && folded("ApiManagement"@[0]) == 'a');
    assert(!same_ignoring_case(text, "ApiManagement"@));
    assert("Batch"@.len() == 5 && text.len() == 13);
    assert("Http"@.len() == 4 && text.len() == 13);
    assert("HttpWebhook"@.len() == 11 && text.len() == 13);
    assert("Recurrence"@.len() == 10 && text.len() == 13);
    assert("Request"@.len() == 7 && text.len() == 13);
    assert("ServiceProvider"@.len() == 15 && text.len() == 13);
}

/// The types of triggers.
pub proof fn lemma_trigger_types(text: Seq<char>)
    ensures
        same_ignoring_case(text, "ApiConnection"@) ==> trigger_spec_of(text) == Some(TriggerSpec::ApiConnection),
        same_ignoring_case(text, "ApiConnectionWebhook"@) ==> trigger_spec_of(text) == Some(TriggerSpec::ApiConnectionWebhook),
        same_ignoring_case(text, "ApiManagement"@) ==> trigger_spec_of(text) == Some(TriggerSpec::ApiManagement),
        same_ignoring_case(text, "Batch"@) ==> trigger_spec_of(text) == Some(TriggerSpec::Batch),
        same_ignoring_case(text, "Http"@) ==> trigger_spec_of(text) == Some(TriggerSpec::Http),
        same_ignoring_case(text, "HttpWebhook"@) ==> trigger_spec_of(text) == Some(TriggerSpec::HttpWebhook),
        same_ignoring_case(text, "Recurrence"@) ==> trigger_spec_of(text) == Some(TriggerSpec::Recurrence),
        same_ignoring_case(text, "Request"@) ==> trigger_spec_of(text) == Some(TriggerSpec::Request),
        same_ignoring_case(text, "ServiceProvider"@) ==> trigger_spec_of(text) == Some(TriggerSpec::ServiceProvider),
        same_ignoring_case(text, "SlidingWindow"@) ==> trigger_spec_of(text) == Some(TriggerSpec::SlidingWindow),
        (!same_ignoring_case(text, "ApiConnection"@) && !same_ignoring_case(text, "ApiConnectionWebhook"@) && !same_ignoring_case(text, "ApiManagement"@) && !same_ignoring_case(text, "Batch"@) && !same_ignoring_case(text, "Http"@) && !same_ignoring_case(text, "HttpWebhook"@) && !same_ignoring_case(text, "Recurrence"@) && !same_ignoring_case(text, "Request"@) && !same_ignoring_case(text, "ServiceProvider"@) && !same_ignoring_case(text, "SlidingWindow"@)) ==> trigger_spec_of(text) is None,
{
    if same_ignoring_case(text, "ApiConnection"@) {
        lemma_trigger_types_0(text);
    }
    if same_ignoring_case(text, "ApiConnectionWebhook"@) {
        lemma_trigger_types_1(text);
    }
    if same_ignoring_case(text, "ApiManagement"@) {
        lemma_trigger_types_2(text);
    }
    if same_ignoring_case(text, "Batch"@) {
        lemma_trigger_types_3(text);
    }
    if same_ignoring_case(text, "Http"@) {
        lemma_trigger_types_4(text);
    }
    if same_ignoring_case(text, "HttpWebhook"@) {
        lemma_trigger_types_5(text);
    }
    if same_ignoring_case(text, "Recurrence"@) {
        lemma_trigger_types_6(text);
    }
    if same_ignoring_case(text, "Request"@) {
        lemma_trigger_types_7(text);
    }
    if same_ignoring_case(text, "ServiceProvider"@) {
        lemma_trigger_types_8(text);
    }
    if same_ignoring_case(text, "SlidingWindow"@) {
        lemma_trigger_types_9(text);
    }
}

/// A action is reported as unknown exactly where its type is none of these, up
/// to the case of letters.
pub proof fn law_unknown_action_types_are_reported(
    action: &Node,
    pointer: Seq<char>,
    container: Seq<char>,
    file: &Document,
    workflow: &Workflow,
    scope: &ArmScope,
    declared: &Node,
    kind: Seq<char>,
)
    requires
        field(action, "type"@) == Some(*declared),
        text_of(declared) == Some(kind),
        known(file.arm, kind) is None,
    ensures
        (!same_ignoring_case(kind, "ApiConnection"@) && !same_ignoring_case(kind, "ApiConnectionWebhook"@) && !same_ignoring_case(kind, "ApiManagement"@) && !same_ignoring_case(kind, "Batch"@) && !same_ignoring_case(kind, "SendToBatch"@) && !same_ignoring_case(kind, "Compose"@) && !same_ignoring_case(kind, "Expression"@) && !same_ignoring_case(kind, "FlatFileDecoding"@) && !same_ignoring_case(kind, "FlatFileEncoding"@) && !same_ignoring_case(kind, "Function"@) && !same_ignoring_case(kind, "Http"@) && !same_ignoring_case(kind, "HttpWebhook"@) && !same_ignoring_case(kind, "IntegrationAccountArtifactLookup"@) && !same_ignoring_case(kind, "JavaScriptCode"@) && !same_ignoring_case(kind, "Join"@) && !same_ignoring_case(kind, "Liquid"@) && !same_ignoring_case(kind, "ParseJson"@) && !same_ignoring_case(kind, "PowershellCode"@) && !same_ignoring_case(kind, "Query"@) && !same_ignoring_case(kind, "Response"@) && !same_ignoring_case(kind, "ServiceProvider"@) && !same_ignoring_case(kind, "Foreach"@) && !same_ignoring_case(kind, "If"@) && !same_ignoring_case(kind, "Scope"@) && !same_ignoring_case(kind, "Switch"@) && !same_ignoring_case(kind, "Until"@) && !same_ignoring_case(kind, "Select"@) && !same_ignoring_case(kind, "Table"@) && !same_ignoring_case(kind, "Terminate"@) && !same_ignoring_case(kind, "AppendToArrayVariable"@) && !same_ignoring_case(kind, "AppendToStringVariable"@) && !same_ignoring_case(kind, "Agent"@) && !same_ignoring_case(kind, "DecrementVariable"@) && !same_ignoring_case(kind, "IncrementVariable"@) && !same_ignoring_case(kind, "InitializeVariable"@) && !same_ignoring_case(kind, "SetVariable"@) && !same_ignoring_case(kind, "Wait"@) && !same_ignoring_case(kind, "Workflow"@) && !same_ignoring_case(kind, "XmlValidation"@) && !same_ignoring_case(kind, "Xslt"@)) ==> authored_action_findings(action, pointer, container, file, workflow, scope) == issue(
            file,
            "workflow-shape-unknown-type"@,
            joined(pointer, "type"@),
            Some(declared.span),
            "unknown action type '"@ + kind + "'"@,
        ),
        (same_ignoring_case(kind, "ApiConnection"@) || same_ignoring_case(kind, "ApiConnectionWebhook"@) || same_ignoring_case(kind, "ApiManagement"@) || same_ignoring_case(kind, "Batch"@) || same_ignoring_case(kind, "SendToBatch"@) || same_ignoring_case(kind, "Compose"@) || same_ignoring_case(kind, "Expression"@) || same_ignoring_case(kind, "FlatFileDecoding"@) || same_ignoring_case(kind, "FlatFileEncoding"@) || same_ignoring_case(kind, "Function"@) || same_ignoring_case(kind, "Http"@) || same_ignoring_case(kind, "HttpWebhook"@) || same_ignoring_case(kind, "IntegrationAccountArtifactLookup"@) || same_ignoring_case(kind, "JavaScriptCode"@) || same_ignoring_case(kind, "Join"@) || same_ignoring_case(kind, "Liquid"@) || same_ignoring_case(kind, "ParseJson"@) || same_ignoring_case(kind, "PowershellCode"@) || same_ignoring_case(kind, "Query"@) || same_ignoring_case(kind, "Response"@) || same_ignoring_case(kind, "ServiceProvider"@) || same_ignoring_case(kind, "Foreach"@) || same_ignoring_case(kind, "If"@) || same_ignoring_case(kind, "Scope"@) || same_ignoring_case(kind, "Switch"@) || same_ignoring_case(kind, "Until"@) || same_ignoring_case(kind, "Select"@) || same_ignoring_case(kind, "Table"@) || same_ignoring_case(kind, "Terminate"@) || same_ignoring_case(kind, "AppendToArrayVariable"@) || same_ignoring_case(kind, "AppendToStringVariable"@) || same_ignoring_case(kind, "Agent"@) || same_ignoring_case(kind, "DecrementVariable"@) || same_ignoring_case(kind, "IncrementVariable"@) || same_ignoring_case(kind, "InitializeVariable"@) || same_ignoring_case(kind, "SetVariable"@) || same_ignoring_case(kind, "Wait"@) || same_ignoring_case(kind, "Workflow"@) || same_ignoring_case(kind, "XmlValidation"@) || same_ignoring_case(kind, "Xslt"@)) ==> action_spec_of(kind) is Some,
{
    lemma_action_types(kind);
}

/// A trigger is reported as unknown exactly where its type is none of these, up
/// to the case of letters.
pub proof fn law_unknown_trigger_types_are_reported(
    trigger: &Node,
    pointer: Seq<char>,
    file: &Document,
    workflow: &Workflow,
    scope: &ArmScope,
    declared: &Node,
    kind: Seq<char>,
)
    requires
        field(trigger, "type"@) == Some(*declared),
        text_of(declared) == Some(kind),
        known(file.arm, kind) is None,
    ensures
        (!same_ignoring_case(kind, "ApiConnection"@) && !same_ignoring_case(kind, "ApiConnectionWebhook"@) && !same_ignoring_case(kind, "ApiManagement"@) && !same_ignoring_case(kind, "Batch"@) && !same_ignoring_case(kind, "Http"@) && !same_ignoring_case(kind, "HttpWebhook"@) && !same_ignoring_case(kind, "Recurrence"@) && !same_ignoring_case(kind, "Request"@) && !same_ignoring_case(kind, "ServiceProvider"@) && !same_ignoring_case(kind, "SlidingWindow"@)) ==> authored_trigger_findings(trigger, pointer, file, workflow, scope) == issue(
            file,
            "workflow-shape-unknown-type"@,
            joined(pointer, "type"@),
            Some(declared.span),
            "unknown trigger type '"@ + kind + "'"@,
        ),
        (same_ignoring_case(kind, "ApiConnection"@) || same_ignoring_case(kind, "ApiConnectionWebhook"@) || same_ignoring_case(kind, "ApiManagement"@) || same_ignoring_case(kind, "Batch"@) || same_ignoring_case(kind, "Http"@) || same_ignoring_case(kind, "HttpWebhook"@) || same_ignoring_case(kind, "Recurrence"@) || same_ignoring_case(kind, "Request"@) || same_ignoring_case(kind, "ServiceProvider"@) || same_ignoring_case(kind, "SlidingWindow"@)) ==> trigger_spec_of(kind) is Some,
{
    lemma_trigger_types(kind);
}

} // verus!
