//! What credentials and retry policies are judged by.

use vstd::prelude::*;

use crate::arm::ArmScope;

use crate::json::{field, joined, text_field, Document, Json, Member, Node, Number};
use crate::shape::data_laws::is_text;

use crate::shape::duration_laws::{is_run, law_lengths_are_ordered_as_numbers};
use crate::shape::http::{
    authentication_findings, authentication_object_findings, authentication_type_names,
    authentication_value_findings, bounds_of, credential_field_names, credential_type_names,
    http_inputs_findings, is_longer, other_credentials_findings, required_credential_findings,
    required_credentials, required_credentials_findings, retry_interval_findings,
    retry_order_findings, retry_policy_object_findings, retry_policy_type_names,
    retry_required_findings, retry_type_findings, unused_credentials_findings,
};
use crate::shape::http_laws::{lemma_interval, time_seconds};
use crate::shape::field_validators::enum_findings;
use crate::shape::plain_laws::{holds_only, is_plain, keeps_state, lemma_plain};
use crate::shape::recurrence_laws::{is_unmarked, lemma_unmarked_is_literal};
use crate::text::{folded, one_of, one_of_ignoring_case, same_ignoring_case};
use crate::workflow::Workflow;

verus! {

/// All members of an object are texts.
pub open spec fn holds_texts(node: &Node) -> bool {
    forall|key: Seq<char>| #[trigger] field(node, key) is Some ==> text_field(node, key) is Some
}

/// The first `n` members are all called `type`.
pub open spec fn are_types(members: Seq<Member>, n: int) -> bool {
    forall|i: int| 0 <= i < n ==> (#[trigger] members[i]).name@ == "type"@
}

/// No member is null.
pub open spec fn has_no_null(members: Seq<Member>) -> bool {
    forall|i: int| 0 <= i < members.len() ==> !((#[trigger] members[i]).value.kind is Null)
}

proof fn lemma_authentication_type_names(name: Seq<char>)
    ensures
        one_of(name, authentication_type_names()) == (name == "ActiveDirectoryOAuth"@ || name == "Basic"@ || name == "ClientCertificate"@ || name == "ManagedServiceIdentity"@ || name == "None"@ || name == "Raw"@),
{
    let list = authentication_type_names();
    if one_of(name, list) {
        let k = choose|k: int| 0 <= k < list.len() && list[k] == name;
        assert(list[k] == name);
    }
    assert(list[0] == "ActiveDirectoryOAuth"@);
    assert(list[1] == "Basic"@);
    assert(list[2] == "ClientCertificate"@);
    assert(list[3] == "ManagedServiceIdentity"@);
    assert(list[4] == "None"@);
    assert(list[5] == "Raw"@);
}

proof fn lemma_credential_type_names(name: Seq<char>)
    ensures
        one_of_ignoring_case(name, credential_type_names()) == (same_ignoring_case(name, "Certificate"@) || same_ignoring_case(name, "Secret"@)),
{
    let list = credential_type_names();
    assert(list[0] == "Certificate"@);
    assert(list[1] == "Secret"@);
    if one_of_ignoring_case(name, list) {
        let k = choose|k: int| 0 <= k < list.len() && same_ignoring_case(name, #[trigger] list[k]);
        assert(same_ignoring_case(name, list[k]));
    }
}

proof fn lemma_auth_activedirectoryoauth()
    ensures
        same_ignoring_case("ActiveDirectoryOAuth"@, "ActiveDirectoryOAuth"@),
        !same_ignoring_case("ActiveDirectoryOAuth"@, "Basic"@),
        !same_ignoring_case("ActiveDirectoryOAuth"@, "ClientCertificate"@),
        !same_ignoring_case("ActiveDirectoryOAuth"@, "Raw"@),
        !same_ignoring_case("ActiveDirectoryOAuth"@, "None"@),
{
    assert(same_ignoring_case("ActiveDirectoryOAuth"@, "ActiveDirectoryOAuth"@)) by {
        reveal_strlit("ActiveDirectoryOAuth");
        reveal_strlit("ActiveDirectoryOAuth");
        assert("ActiveDirectoryOAuth"@.len() == 20 && "ActiveDirectoryOAuth"@.len() == 20);
        assert(folded("ActiveDirectoryOAuth"@[0]) == 'a' && folded("ActiveDirectoryOAuth"@[0]) == 'a');
        assert(folded("ActiveDirectoryOAuth"@[1]) == 'c' && folded("ActiveDirectoryOAuth"@[1]) == 'c');
        assert(folded("ActiveDirectoryOAuth"@[2]) == 't' && folded("ActiveDirectoryOAuth"@[2]) == 't');
        assert(folded("ActiveDirectoryOAuth"@[3]) == 'i' && folded("ActiveDirectoryOAuth"@[3]) == 'i');
        assert(folded("ActiveDirectoryOAuth"@[4]) == 'v' && folded("ActiveDirectoryOAuth"@[4]) == 'v');
        assert(folded("ActiveDirectoryOAuth"@[5]) == 'e' && folded("ActiveDirectoryOAuth"@[5]) == 'e');
        assert(folded("ActiveDirectoryOAuth"@[6]) == 'd' && folded("ActiveDirectoryOAuth"@[6]) == 'd');
        assert(folded("ActiveDirectoryOAuth"@[7]) == 'i' && folded("ActiveDirectoryOAuth"@[7]) == 'i');
        assert(folded("ActiveDirectoryOAuth"@[8]) == 'r' && folded("ActiveDirectoryOAuth"@[8]) == 'r');
        assert(folded("ActiveDirectoryOAuth"@[9]) == 'e' && folded("ActiveDirectoryOAuth"@[9]) == 'e');
        assert(folded("ActiveDirectoryOAuth"@[10]) == 'c' && folded("ActiveDirectoryOAuth"@[10]) == 'c');
        assert(folded("ActiveDirectoryOAuth"@[11]) == 't' && folded("ActiveDirectoryOAuth"@[11]) == 't');
        assert(folded("ActiveDirectoryOAuth"@[12]) == 'o' && folded("ActiveDirectoryOAuth"@[12]) == 'o');
        assert(folded("ActiveDirectoryOAuth"@[13]) == 'r' && folded("ActiveDirectoryOAuth"@[13]) == 'r');
        assert(folded("ActiveDirectoryOAuth"@[14]) == 'y' && folded("ActiveDirectoryOAuth"@[14]) == 'y');
        assert(folded("ActiveDirectoryOAuth"@[15]) == 'o' && folded("ActiveDirectoryOAuth"@[15]) == 'o');
        assert(folded("ActiveDirectoryOAuth"@[16]) == 'a' && folded("ActiveDirectoryOAuth"@[16]) == 'a');
        assert(folded("ActiveDirectoryOAuth"@[17]) == 'u' && folded("ActiveDirectoryOAuth"@[17]) == 'u');
        assert(folded("ActiveDirectoryOAuth"@[18]) == 't' && folded("ActiveDirectoryOAuth"@[18]) == 't');
        assert(folded("ActiveDirectoryOAuth"@[19]) == 'h' && folded("ActiveDirectoryOAuth"@[19]) == 'h');
    }
    assert(!same_ignoring_case("ActiveDirectoryOAuth"@, "Basic"@)) by {
        reveal_strlit("ActiveDirectoryOAuth");
        reveal_strlit("Basic");
        assert("ActiveDirectoryOAuth"@.len() == 20 && "Basic"@.len() == 5);
    }
    assert(!same_ignoring_case("ActiveDirectoryOAuth"@, "ClientCertificate"@)) by {
        reveal_strlit("ActiveDirectoryOAuth");
        reveal_strlit("ClientCertificate");
        assert("ActiveDirectoryOAuth"@.len() == 20 && "ClientCertificate"@.len() == 17);
    }
    assert(!same_ignoring_case("ActiveDirectoryOAuth"@, "Raw"@)) by {
        reveal_strlit("ActiveDirectoryOAuth");
        reveal_strlit("Raw");
        assert("ActiveDirectoryOAuth"@.len() == 20 && "Raw"@.len() == 3);
    }
    assert(!same_ignoring_case("ActiveDirectoryOAuth"@, "None"@)) by {
        reveal_strlit("ActiveDirectoryOAuth");
        reveal_strlit("None");
        assert("ActiveDirectoryOAuth"@.len() == 20 && "None"@.len() == 4);
    }
}

proof fn lemma_auth_basic()
    ensures
        !same_ignoring_case("Basic"@, "ActiveDirectoryOAuth"@),
        same_ignoring_case("Basic"@, "Basic"@),
        !same_ignoring_case("Basic"@, "ClientCertificate"@),
        !same_ignoring_case("Basic"@, "Raw"@),
        !same_ignoring_case("Basic"@, "None"@),
{
    assert(!same_ignoring_case("Basic"@, "ActiveDirectoryOAuth"@)) by {
        reveal_strlit("Basic");
        reveal_strlit("ActiveDirectoryOAuth");
        assert("Basic"@.len() == 5 && "ActiveDirectoryOAuth"@.len() == 20);
    }
    assert(same_ignoring_case("Basic"@, "Basic"@)) by {
        reveal_strlit("Basic");
        reveal_strlit("Basic");
        assert("Basic"@.len() == 5 && "Basic"@.len() == 5);
        assert(folded("Basic"@[0]) == 'b' && folded("Basic"@[0]) == 'b');
        assert(folded("Basic"@[1]) == 'a' && folded("Basic"@[1]) == 'a');
        assert(folded("Basic"@[2]) == 's' && folded("Basic"@[2]) == 's');
        assert(folded("Basic"@[3]) == 'i' && folded("Basic"@[3]) == 'i');
        assert(folded("Basic"@[4]) == 'c' && folded("Basic"@[4]) == 'c');
    }
    assert(!same_ignoring_case("Basic"@, "ClientCertificate"@)) by {
        reveal_strlit("Basic");
        reveal_strlit("ClientCertificate");
        assert("Basic"@.len() == 5 && "ClientCertificate"@.len() == 17);
    }
    assert(!same_ignoring_case("Basic"@, "Raw"@)) by {
        reveal_strlit("Basic");
        reveal_strlit("Raw");
        assert("Basic"@.len() == 5 && "Raw"@.len() == 3);
    }
    assert(!same_ignoring_case("Basic"@, "None"@)) by {
        reveal_strlit("Basic");
        reveal_strlit("None");
        assert("Basic"@.len() == 5 && "None"@.len() == 4);
    }
}

proof fn lemma_auth_clientcertificate()
    ensures
        !same_ignoring_case("ClientCertificate"@, "ActiveDirectoryOAuth"@),
        !same_ignoring_case("ClientCertificate"@, "Basic"@),
        same_ignoring_case("ClientCertificate"@, "ClientCertificate"@),
        !same_ignoring_case("ClientCertificate"@, "Raw"@),
        !same_ignoring_case("ClientCertificate"@, "None"@),
{
    assert(!same_ignoring_case("ClientCertificate"@, "ActiveDirectoryOAuth"@)) by {
        reveal_strlit("ClientCertificate");
        reveal_strlit("ActiveDirectoryOAuth");
        assert("ClientCertificate"@.len() == 17 && "ActiveDirectoryOAuth"@.len() == 20);
    }
    assert(!same_ignoring_case("ClientCertificate"@, "Basic"@)) by {
        reveal_strlit("ClientCertificate");
        reveal_strlit("Basic");
        assert("ClientCertificate"@.len() == 17 && "Basic"@.len() == 5);
    }
    assert(same_ignoring_case("ClientCertificate"@, "ClientCertificate"@)) by {
        reveal_strlit("ClientCertificate");
        reveal_strlit("ClientCertificate");
        assert("ClientCertificate"@.len() == 17 && "ClientCertificate"@.len() == 17);
        assert(folded("ClientCertificate"@[0]) == 'c' && folded("ClientCertificate"@[0]) == 'c');
        assert(folded("ClientCertificate"@[1]) == 'l' && folded("ClientCertificate"@[1]) == 'l');
        assert(folded("ClientCertificate"@[2]) == 'i' && folded("ClientCertificate"@[2]) == 'i');
        assert(folded("ClientCertificate"@[3]) == 'e' && folded("ClientCertificate"@[3]) == 'e');
        assert(folded("ClientCertificate"@[4]) == 'n' && folded("ClientCertificate"@[4]) == 'n');
        assert(folded("ClientCertificate"@[5]) == 't' && folded("ClientCertificate"@[5]) == 't');
        assert(folded("ClientCertificate"@[6]) == 'c' && folded("ClientCertificate"@[6]) == 'c');
        assert(folded("ClientCertificate"@[7]) == 'e' && folded("ClientCertificate"@[7]) == 'e');
        assert(folded("ClientCertificate"@[8]) == 'r' && folded("ClientCertificate"@[8]) == 'r');
        assert(folded("ClientCertificate"@[9]) == 't' && folded("ClientCertificate"@[9]) == 't');
        assert(folded("ClientCertificate"@[10]) == 'i' && folded("ClientCertificate"@[10]) == 'i');
        assert(folded("ClientCertificate"@[11]) == 'f' && folded("ClientCertificate"@[11]) == 'f');
        assert(folded("ClientCertificate"@[12]) == 'i' && folded("ClientCertificate"@[12]) == 'i');
        assert(folded("ClientCertificate"@[13]) == 'c' && folded("ClientCertificate"@[13]) == 'c');
        assert(folded("ClientCertificate"@[14]) == 'a' && folded("ClientCertificate"@[14]) == 'a');
        assert(folded("ClientCertificate"@[15]) == 't' && folded("ClientCertificate"@[15]) == 't');
        assert(folded("ClientCertificate"@[16]) == 'e' && folded("ClientCertificate"@[16]) == 'e');
    }
    assert(!same_ignoring_case("ClientCertificate"@, "Raw"@)) by {
        reveal_strlit("ClientCertificate");
        reveal_strlit("Raw");
        assert("ClientCertificate"@.len() == 17 && "Raw"@.len() == 3);
    }
    assert(!same_ignoring_case("ClientCertificate"@, "None"@)) by {
        reveal_strlit("ClientCertificate");
        reveal_strlit("None");
        assert("ClientCertificate"@.len() == 17 && "None"@.len() == 4);
    }
}

proof fn lemma_auth_managedserviceidentity()
    ensures
        !same_ignoring_case("ManagedServiceIdentity"@, "ActiveDirectoryOAuth"@),
        !same_ignoring_case("ManagedServiceIdentity"@, "Basic"@),
        !same_ignoring_case("ManagedServiceIdentity"@, "ClientCertificate"@),
        !same_ignoring_case("ManagedServiceIdentity"@, "Raw"@),
        !same_ignoring_case("ManagedServiceIdentity"@, "None"@),
{
    assert(!same_ignoring_case("ManagedServiceIdentity"@, "ActiveDirectoryOAuth"@)) by {
        reveal_strlit("ManagedServiceIdentity");
        reveal_strlit("ActiveDirectoryOAuth");
        assert("ManagedServiceIdentity"@.len() == 22 && "ActiveDirectoryOAuth"@.len() == 20);
    }
    assert(!same_ignoring_case("ManagedServiceIdentity"@, "Basic"@)) by {
        reveal_strlit("ManagedServiceIdentity");
        reveal_strlit("Basic");
        assert("ManagedServiceIdentity"@.len() == 22 && "Basic"@.len() == 5);
    }
    assert(!same_ignoring_case("ManagedServiceIdentity"@, "ClientCertificate"@)) by {
        reveal_strlit("ManagedServiceIdentity");
        reveal_strlit("ClientCertificate");
        assert("ManagedServiceIdentity"@.len() == 22 && "ClientCertificate"@.len() == 17);
    }
    assert(!same_ignoring_case("ManagedServiceIdentity"@, "Raw"@)) by {
        reveal_strlit("ManagedServiceIdentity");
        reveal_strlit("Raw");
        assert("ManagedServiceIdentity"@.len() == 22 && "Raw"@.len() == 3);
    }
    assert(!same_ignoring_case("ManagedServiceIdentity"@, "None"@)) by {
        reveal_strlit("ManagedServiceIdentity");
        reveal_strlit("None");
        assert("ManagedServiceIdentity"@.len() == 22 && "None"@.len() == 4);
    }
}

proof fn lemma_auth_none()
    ensures
        !same_ignoring_case("None"@, "ActiveDirectoryOAuth"@),
        !same_ignoring_case("None"@, "Basic"@),
        !same_ignoring_case("None"@, "ClientCertificate"@),
        !same_ignoring_case("None"@, "Raw"@),
        same_ignoring_case("None"@, "None"@),
{
    assert(!same_ignoring_case("None"@, "ActiveDirectoryOAuth"@)) by {
        reveal_strlit("None");
        reveal_strlit("ActiveDirectoryOAuth");
        assert("None"@.len() == 4 && "ActiveDirectoryOAuth"@.len() == 20);
    }
    assert(!same_ignoring_case("None"@, "Basic"@)) by {
        reveal_strlit("None");
        reveal_strlit("Basic");
        assert("None"@.len() == 4 && "Basic"@.len() == 5);
    }
    assert(!same_ignoring_case("None"@, "ClientCertificate"@)) by {
        reveal_strlit("None");
        reveal_strlit("ClientCertificate");
        assert("None"@.len() == 4 && "ClientCertificate"@.len() == 17);
    }
    assert(!same_ignoring_case("None"@, "Raw"@)) by {
        reveal_strlit("None");
        reveal_strlit("Raw");
        assert("None"@.len() == 4 && "Raw"@.len() == 3);
    }
    assert(same_ignoring_case("None"@, "None"@)) by {
        reveal_strlit("None");
        reveal_strlit("None");
        assert("None"@.len() == 4 && "None"@.len() == 4);
        assert(folded("None"@[0]) == 'n' && folded("None"@[0]) == 'n');
        assert(folded("None"@[1]) == 'o' && folded("None"@[1]) == 'o');
        assert(folded("None"@[2]) == 'n' && folded("None"@[2]) == 'n');
        assert(folded("None"@[3]) == 'e' && folded("None"@[3]) == 'e');
    }
}

proof fn lemma_auth_raw()
    ensures
        !same_ignoring_case("Raw"@, "ActiveDirectoryOAuth"@),
        !same_ignoring_case("Raw"@, "Basic"@),
        !same_ignoring_case("Raw"@, "ClientCertificate"@),
        same_ignoring_case("Raw"@, "Raw"@),
        !same_ignoring_case("Raw"@, "None"@),
{
    assert(!same_ignoring_case("Raw"@, "ActiveDirectoryOAuth"@)) by {
        reveal_strlit("Raw");
        reveal_strlit("ActiveDirectoryOAuth");
        assert("Raw"@.len() == 3 && "ActiveDirectoryOAuth"@.len() == 20);
    }
    assert(!same_ignoring_case("Raw"@, "Basic"@)) by {
        reveal_strlit("Raw");
        reveal_strlit("Basic");
        assert("Raw"@.len() == 3 && "Basic"@.len() == 5);
    }
    assert(!same_ignoring_case("Raw"@, "ClientCertificate"@)) by {
        reveal_strlit("Raw");
        reveal_strlit("ClientCertificate");
        assert("Raw"@.len() == 3 && "ClientCertificate"@.len() == 17);
    }
    assert(same_ignoring_case("Raw"@, "Raw"@)) by {
        reveal_strlit("Raw");
        reveal_strlit("Raw");
        assert("Raw"@.len() == 3 && "Raw"@.len() == 3);
        assert(folded("Raw"@[0]) == 'r' && folded("Raw"@[0]) == 'r');
        assert(folded("Raw"@[1]) == 'a' && folded("Raw"@[1]) == 'a');
        assert(folded("Raw"@[2]) == 'w' && folded("Raw"@[2]) == 'w');
    }
    assert(!same_ignoring_case("Raw"@, "None"@)) by {
        reveal_strlit("Raw");
        reveal_strlit("None");
        assert("Raw"@.len() == 3 && "None"@.len() == 4);
    }
}

proof fn lemma_required(
    keys: Seq<Seq<char>>,
    n: nat,
    auth: &Node,
    base: Seq<char>,
    label: Seq<char>,
    file: &Document,
    scope: &ArmScope,
)
    requires
        is_plain(file, scope),
        holds_texts(auth),
        n <= keys.len(),
    ensures
        (required_credentials_findings(keys, n, auth, base, label, file).len() == 0) == (forall|
            i: int,
        |
            0 <= i < n ==> is_text(auth, #[trigger] keys[i])),
    decreases n,
{
    lemma_plain(file, scope);
    if n > 0 {
        lemma_required(keys, (n - 1) as nat, auth, base, label, file, scope);
        let key = keys[n - 1];
        assert((required_credential_findings(auth, base, key, label, file).len() == 0) == is_text(
            auth,
            key,
        ));
    }
}

proof fn lemma_others(
    keys: Seq<Seq<char>>,
    n: nat,
    required: Seq<Seq<char>>,
    auth: &Node,
    base: Seq<char>,
    label: Seq<char>,
    file: &Document,
    scope: &ArmScope,
)
    requires
        is_plain(file, scope),
        holds_texts(auth),
        n <= keys.len(),
    ensures
        other_credentials_findings(keys, n, required, auth, base, label, file).len() == 0,
    decreases n,
{
    lemma_plain(file, scope);
    if n > 0 {
        lemma_others(keys, (n - 1) as nat, required, auth, base, label, file, scope);
        let key = keys[n - 1];
        assert(field(auth, key) is Some ==> text_field(auth, key) is Some);
    }
}

proof fn lemma_unused(
    members: Seq<Member>,
    n: nat,
    base: Seq<char>,
    label: Seq<char>,
    file: &Document,
    scope: &ArmScope,
)
    requires
        is_plain(file, scope),
        has_no_null(members),
        n <= members.len(),
    ensures
        (unused_credentials_findings(members, n, base, label, file).len() == 0) == are_types(
            members,
            n as int,
        ),
    decreases n,
{
    lemma_plain(file, scope);
    if n > 0 {
        lemma_unused(members, (n - 1) as nat, base, label, file, scope);
        assert(!(members[n - 1].value.kind is Null));
    }
}

/// Inputs with these members have nothing else.
proof fn lemma_authentication_alone(node: &Node)
    requires
        holds_only(node, seq!["method"@, "uri"@, "authentication"@]),
    ensures
        field(node, "headers"@) is None,
        field(node, "queries"@) is None,
        field(node, "cookie"@) is None,
        field(node, "operationOptions"@) is None,
        field(node, "retryPolicy"@) is None,
{
    reveal_strlit("method");
    reveal_strlit("uri");
    reveal_strlit("authentication");
    reveal_strlit("headers");
    reveal_strlit("queries");
    reveal_strlit("cookie");
    reveal_strlit("operationOptions");
    reveal_strlit("retryPolicy");
    assert("method"@.len() == 6 && "method"@[0] == 'm');
    assert("uri"@.len() == 3 && "uri"@[0] == 'u');
    assert("authentication"@.len() == 14 && "authentication"@[0] == 'a');
    assert("headers"@.len() == 7 && "headers"@[0] == 'h');
    assert("queries"@.len() == 7 && "queries"@[0] == 'q');
    assert("cookie"@.len() == 6 && "cookie"@[0] == 'c');
    assert("operationOptions"@.len() == 16 && "operationOptions"@[0] == 'o');
    assert("retryPolicy"@.len() == 11 && "retryPolicy"@[0] == 'r');
    let keys = seq!["method"@, "uri"@, "authentication"@];
    if field(node, "headers"@) is Some {
        assert(keys.contains("headers"@));
        let i = choose|i: int| 0 <= i < keys.len() && keys[i] == "headers"@;
        assert(keys[i] == "headers"@);
    }
    if field(node, "queries"@) is Some {
        assert(keys.contains("queries"@));
        let i = choose|i: int| 0 <= i < keys.len() && keys[i] == "queries"@;
        assert(keys[i] == "queries"@);
    }
    if field(node, "cookie"@) is Some {
        assert(keys.contains("cookie"@));
        let i = choose|i: int| 0 <= i < keys.len() && keys[i] == "cookie"@;
        assert(keys[i] == "cookie"@);
    }
    if field(node, "operationOptions"@) is Some {
        assert(keys.contains("operationOptions"@));
        let i = choose|i: int| 0 <= i < keys.len() && keys[i] == "operationOptions"@;
        assert(keys[i] == "operationOptions"@);
    }
    if field(node, "retryPolicy"@) is Some {
        assert(keys.contains("retryPolicy"@));
        let i = choose|i: int| 0 <= i < keys.len() && keys[i] == "retryPolicy"@;
        assert(keys[i] == "retryPolicy"@);
    }
}

/// Inputs with these members have nothing else.
proof fn lemma_retries_alone(node: &Node)
    requires
        holds_only(node, seq!["method"@, "uri"@, "retryPolicy"@]),
    ensures
        field(node, "headers"@) is None,
        field(node, "queries"@) is None,
        field(node, "cookie"@) is None,
        field(node, "operationOptions"@) is None,
        field(node, "authentication"@) is None,
{
    reveal_strlit("method");
    reveal_strlit("uri");
    reveal_strlit("retryPolicy");
    reveal_strlit("headers");
    reveal_strlit("queries");
    reveal_strlit("cookie");
    reveal_strlit("operationOptions");
    reveal_strlit("authentication");
    assert("method"@.len() == 6 && "method"@[0] == 'm');
    assert("uri"@.len() == 3 && "uri"@[0] == 'u');
    assert("retryPolicy"@.len() == 11 && "retryPolicy"@[0] == 'r');
    assert("headers"@.len() == 7 && "headers"@[0] == 'h');
    assert("queries"@.len() == 7 && "queries"@[0] == 'q');
    assert("cookie"@.len() == 6 && "cookie"@[0] == 'c');
    assert("operationOptions"@.len() == 16 && "operationOptions"@[0] == 'o');
    assert("authentication"@.len() == 14 && "authentication"@[0] == 'a');
    let keys = seq!["method"@, "uri"@, "retryPolicy"@];
    if field(node, "headers"@) is Some {
        assert(keys.contains("headers"@));
        let i = choose|i: int| 0 <= i < keys.len() && keys[i] == "headers"@;
        assert(keys[i] == "headers"@);
    }
    if field(node, "queries"@) is Some {
        assert(keys.contains("queries"@));
        let i = choose|i: int| 0 <= i < keys.len() && keys[i] == "queries"@;
        assert(keys[i] == "queries"@);
    }
    if field(node, "cookie"@) is Some {
        assert(keys.contains("cookie"@));
        let i = choose|i: int| 0 <= i < keys.len() && keys[i] == "cookie"@;
        assert(keys[i] == "cookie"@);
    }
    if field(node, "operationOptions"@) is Some {
        assert(keys.contains("operationOptions"@));
        let i = choose|i: int| 0 <= i < keys.len() && keys[i] == "operationOptions"@;
        assert(keys[i] == "operationOptions"@);
    }
    if field(node, "authentication"@) is Some {
        assert(keys.contains("authentication"@));
        let i = choose|i: int| 0 <= i < keys.len() && keys[i] == "authentication"@;
        assert(keys[i] == "authentication"@);
    }
}

/// An authentication of plain texts is clean exactly where its type is known and
/// it has the credentials of that type, and none where it is switched off.
pub proof fn law_credentials_go_by_type(
    inputs: &Node,
    auth: &Node,
    members: Vec<Member>,
    kind: Seq<char>,
    base: Seq<char>,
    label: Seq<char>,
    file: &Document,
    workflow: &Workflow,
    scope: &ArmScope,
)
    requires
        is_plain(file, scope),
        holds_only(inputs, seq!["method"@, "uri"@, "authentication"@]),
        field(inputs, "authentication"@) == Some(*auth),
        auth.kind == Json::Object(members),
        has_no_null(members@),
        holds_texts(auth),
        text_field(auth, "type"@) == Some(kind),
        is_unmarked(kind),
        is_text(auth, "credentialType"@) ==> is_unmarked(
            text_field(auth, "credentialType"@)->Some_0,
        ),
    ensures
        (http_inputs_findings(inputs, base, label, bounds_of(workflow), file).len() == 0) == {
            let credential = text_field(auth, "credentialType"@);
            let by_certificate = credential is Some && same_ignoring_case(
                credential->Some_0,
                "Certificate"@,
            );
            let by_secret = credential is None || same_ignoring_case(
                credential->Some_0,
                "Secret"@,
            );
            ||| kind == "ActiveDirectoryOAuth"@ && is_text(auth, "tenant"@) && is_text(
                auth,
                "audience"@,
            ) && is_text(auth, "clientId"@) && (by_certificate && is_text(auth, "pfx"@) && is_text(
                auth,
                "password"@,
            ) || by_secret && is_text(auth, "secret"@))
            ||| kind == "Basic"@ && is_text(auth, "username"@) && is_text(auth, "password"@)
            ||| kind == "ClientCertificate"@ && is_text(auth, "pfx"@)
            ||| kind == "ManagedServiceIdentity"@
            ||| kind == "None"@ && are_types(members@, members@.len() as int)
            ||| kind == "Raw"@ && is_text(auth, "value"@)
        },
{
    lemma_plain(file, scope);
    lemma_authentication_alone(inputs);
    lemma_unmarked_is_literal(kind);
    lemma_authentication_type_names(kind);
    if let Some(text) = text_field(auth, "credentialType"@) {
        lemma_unmarked_is_literal(text);
        lemma_credential_type_names(text);
    }
    reveal_strlit("ActiveDirectoryOAuth");
    reveal_strlit("Basic");
    reveal_strlit("ClientCertificate");
    reveal_strlit("ManagedServiceIdentity");
    reveal_strlit("None");
    reveal_strlit("Raw");
    assert("ActiveDirectoryOAuth"@.len() == 20 && "ActiveDirectoryOAuth"@[0] == 'A');
    assert("Basic"@.len() == 5 && "Basic"@[0] == 'B');
    assert("ClientCertificate"@.len() == 17 && "ClientCertificate"@[0] == 'C');
    assert("ManagedServiceIdentity"@.len() == 22 && "ManagedServiceIdentity"@[0] == 'M');
    assert("None"@.len() == 4 && "None"@[0] == 'N');
    assert("Raw"@.len() == 3 && "Raw"@[0] == 'R');
    lemma_auth_activedirectoryoauth();
    lemma_auth_basic();
    lemma_auth_clientcertificate();
    lemma_auth_managedserviceidentity();
    lemma_auth_none();
    lemma_auth_raw();
    assert(!same_ignoring_case("Certificate"@, "Secret"@)) by {
        reveal_strlit("Certificate");
        reveal_strlit("Secret");
        assert("Certificate"@.len() == 11 && "Secret"@.len() == 6);
    }
    let at = joined(base, "authentication"@);
    let required = required_credentials(auth, kind, file);
    lemma_required(required, required.len(), auth, at, label, file, scope);
    let fields = credential_field_names();
    lemma_others(fields, fields.len(), required, auth, at, label, file, scope);
    lemma_unused(members@, members@.len(), at, label, file, scope);
    let needed = required_credentials_findings(required, required.len(), auth, at, label, file);
    let named = enum_findings(
        auth,
        at,
        "type"@,
        label + ".authentication.type"@,
        authentication_type_names(),
        file,
    );
    assert((named.len() == 0) == one_of(kind, authentication_type_names()));
    let object = authentication_object_findings(auth, at, label, file);
    if kind == "ActiveDirectoryOAuth"@ {
        let credential = text_field(auth, "credentialType"@);
        if credential is Some {
            let c = credential->Some_0;
            assert(!(same_ignoring_case(c, "Certificate"@) && same_ignoring_case(c, "Secret"@)))
                by {
                reveal_strlit("Certificate");
                reveal_strlit("Secret");
                assert("Certificate"@.len() == 11 && "Secret"@.len() == 6);
            }
        }
        assert(required[0] == "tenant"@ && required[1] == "audience"@ && required[2]
            == "clientId"@);
        if credential is Some && same_ignoring_case(credential->Some_0, "Certificate"@) {
            assert(required.len() == 5 && required[3] == "pfx"@ && required[4] == "password"@);
        } else {
            assert(required.len() == 4 && required[3] == "secret"@);
        }
    } else if kind == "Basic"@ {
        assert(required.len() == 2 && required[0] == "username"@ && required[1] == "password"@);
    } else if kind == "ClientCertificate"@ {
        assert(required.len() == 1 && required[0] == "pfx"@);
    } else if kind == "Raw"@ {
        assert(required.len() == 1 && required[0] == "value"@);
    } else if kind == "ManagedServiceIdentity"@ {
        assert(required.len() == 0);
    }
    let value = authentication_value_findings(auth, base, label, file);
    assert(value == object);
    let found = authentication_findings(inputs, base, label, file);
    assert(found.len() == value.len());
    assert(http_inputs_findings(inputs, base, label, bounds_of(workflow), file).len()
        == found.len());
}

proof fn lemma_retry_policy_type_names(name: Seq<char>)
    ensures
        one_of_ignoring_case(name, retry_policy_type_names()) == (same_ignoring_case(name, "Default"@) || same_ignoring_case(name, "Exponential"@) || same_ignoring_case(name, "Fixed"@) || same_ignoring_case(name, "None"@)),
{
    let list = retry_policy_type_names();
    assert(list[0] == "Default"@);
    assert(list[1] == "Exponential"@);
    assert(list[2] == "Fixed"@);
    assert(list[3] == "None"@);
    if one_of_ignoring_case(name, list) {
        let k = choose|k: int| 0 <= k < list.len() && same_ignoring_case(name, #[trigger] list[k]);
        assert(same_ignoring_case(name, list[k]));
    }
}

/// A retry policy with these members has nothing else.
proof fn lemma_policy_alone(node: &Node)
    requires
        holds_only(node, seq!["type"@, "count"@, "interval"@]),
    ensures
        field(node, "minimumInterval"@) is None,
        field(node, "maximumInterval"@) is None,
{
    reveal_strlit("type");
    reveal_strlit("count");
    reveal_strlit("interval");
    reveal_strlit("minimumInterval");
    reveal_strlit("maximumInterval");
    assert("type"@.len() == 4 && "type"@[0] == 't');
    assert("count"@.len() == 5 && "count"@[0] == 'c');
    assert("interval"@.len() == 8 && "interval"@[0] == 'i');
    assert("minimumInterval"@.len() == 15 && "minimumInterval"@[0] == 'm' && "minimumInterval"@[1] == 'i');
    assert("maximumInterval"@.len() == 15 && "maximumInterval"@[0] == 'm' && "maximumInterval"@[1] == 'a');
    let keys = seq!["type"@, "count"@, "interval"@];
    if field(node, "minimumInterval"@) is Some {
        assert(keys.contains("minimumInterval"@));
        let i = choose|i: int| 0 <= i < keys.len() && keys[i] == "minimumInterval"@;
        assert(keys[i] == "minimumInterval"@);
    }
    if field(node, "maximumInterval"@) is Some {
        assert(keys.contains("maximumInterval"@));
        let i = choose|i: int| 0 <= i < keys.len() && keys[i] == "maximumInterval"@;
        assert(keys[i] == "maximumInterval"@);
    }
}

/// A retry policy with these members has nothing else.
proof fn lemma_range_alone(node: &Node)
    requires
        holds_only(node, seq!["type"@, "minimumInterval"@, "maximumInterval"@]),
    ensures
        field(node, "count"@) is None,
        field(node, "interval"@) is None,
{
    reveal_strlit("type");
    reveal_strlit("minimumInterval");
    reveal_strlit("maximumInterval");
    reveal_strlit("count");
    reveal_strlit("interval");
    assert("type"@.len() == 4 && "type"@[0] == 't');
    assert("minimumInterval"@.len() == 15 && "minimumInterval"@[0] == 'm' && "minimumInterval"@[1] == 'i');
    assert("maximumInterval"@.len() == 15 && "maximumInterval"@[0] == 'm' && "maximumInterval"@[1] == 'a');
    assert("count"@.len() == 5 && "count"@[0] == 'c');
    assert("interval"@.len() == 8 && "interval"@[0] == 'i');
    let keys = seq!["type"@, "minimumInterval"@, "maximumInterval"@];
    if field(node, "count"@) is Some {
        assert(keys.contains("count"@));
        let i = choose|i: int| 0 <= i < keys.len() && keys[i] == "count"@;
        assert(keys[i] == "count"@);
    }
    if field(node, "interval"@) is Some {
        assert(keys.contains("interval"@));
        let i = choose|i: int| 0 <= i < keys.len() && keys[i] == "interval"@;
        assert(keys[i] == "interval"@);
    }
}

/// A retry policy with any of a valid count and a valid interval is clean
/// exactly where it is of a known type, and has both where it waits for a fixed
/// or growing time.
pub proof fn law_waiting_policies_count_and_wait(
    inputs: &Node,
    policy: &Node,
    kind: Seq<char>,
    retries: u64,
    digits: Seq<char>,
    unit: char,
    base: Seq<char>,
    label: Seq<char>,
    file: &Document,
    workflow: &Workflow,
    scope: &ArmScope,
)
    requires
        is_plain(file, scope),
        holds_only(inputs, seq!["method"@, "uri"@, "retryPolicy"@]),
        field(inputs, "retryPolicy"@) == Some(*policy),
        policy.kind is Object,
        holds_only(policy, seq!["type"@, "count"@, "interval"@]),
        text_field(policy, "type"@) == Some(kind),
        is_unmarked(kind),
        field(policy, "count"@) is Some ==> (field(policy, "count"@)->Some_0).kind == Json::Number(
            Number::PosInt(retries),
        ),
        1 <= retries <= 90,
        field(policy, "interval"@) is Some ==> text_field(policy, "interval"@) == Some(
            seq!['P', 'T'] + digits + seq![unit],
        ),
        is_run(digits),
        unit == 'S' || unit == 'M' || unit == 'H',
        5 <= time_seconds(digits, unit) <= 60,
    ensures
        (http_inputs_findings(inputs, base, label, bounds_of(workflow), file).len() == 0) == {
            ||| same_ignoring_case(kind, "Default"@) || same_ignoring_case(kind, "None"@)
            ||| (same_ignoring_case(kind, "Exponential"@) || same_ignoring_case(kind, "Fixed"@))
                && field(policy, "count"@) is Some && field(policy, "interval"@) is Some
        },
{
    lemma_plain(file, scope);
    lemma_retries_alone(inputs);
    lemma_policy_alone(policy);
    lemma_unmarked_is_literal(kind);
    lemma_retry_policy_type_names(kind);
    lemma_kinds_apart(kind);
    let at = joined(base, "retryPolicy"@);
    if field(policy, "interval"@) is Some {
        lemma_interval(
            policy,
            at,
            "interval"@,
            label + ".retryPolicy.interval"@,
            digits,
            unit,
            file,
            workflow,
            scope,
        );
    }
    let typed = retry_type_findings(policy, at, label, file);
    let needed = retry_required_findings(policy, at, file);
    let object = retry_policy_object_findings(policy, at, label, bounds_of(workflow), file);
    assert((object.len() == 0) == (typed.len() == 0 && needed.len() == 0));
    assert(http_inputs_findings(inputs, base, label, bounds_of(workflow), file).len()
        == object.len());
}

proof fn lemma_kinds_apart(kind: Seq<char>)
    ensures
        same_ignoring_case(kind, "Default"@) || same_ignoring_case(kind, "None"@) ==> !(
        same_ignoring_case(kind, "Exponential"@) || same_ignoring_case(kind, "Fixed"@)),
{
    reveal_strlit("Default");
    reveal_strlit("None");
    reveal_strlit("Exponential");
    reveal_strlit("Fixed");
    assert("Default"@.len() == 7 && "None"@.len() == 4 && "Exponential"@.len() == 11
        && "Fixed"@.len() == 5);
}

/// A retry policy with two bounds of the time to wait is clean exactly where
/// each is a time that may be waited for, and the lower is not the longer.
pub proof fn law_bounds_of_waiting_are_ordered(
    inputs: &Node,
    policy: &Node,
    kind: Seq<char>,
    low: Seq<char>,
    low_unit: char,
    high: Seq<char>,
    high_unit: char,
    base: Seq<char>,
    label: Seq<char>,
    file: &Document,
    workflow: &Workflow,
    scope: &ArmScope,
)
    requires
        is_plain(file, scope),
        holds_only(inputs, seq!["method"@, "uri"@, "retryPolicy"@]),
        field(inputs, "retryPolicy"@) == Some(*policy),
        policy.kind is Object,
        holds_only(policy, seq!["type"@, "minimumInterval"@, "maximumInterval"@]),
        text_field(policy, "type"@) == Some(kind),
        is_unmarked(kind),
        same_ignoring_case(kind, "Default"@),
        text_field(policy, "minimumInterval"@) == Some(seq!['P', 'T'] + low + seq![low_unit]),
        text_field(policy, "maximumInterval"@) == Some(seq!['P', 'T'] + high + seq![high_unit]),
        is_run(low),
        is_run(high),
        low_unit == 'S' || low_unit == 'M' || low_unit == 'H',
        high_unit == 'S' || high_unit == 'M' || high_unit == 'H',
    ensures
        (http_inputs_findings(inputs, base, label, bounds_of(workflow), file).len() == 0) == (if keeps_state(workflow) {
            5 <= time_seconds(low, low_unit) <= time_seconds(high, high_unit) <= 86400
        } else {
            1 <= time_seconds(low, low_unit) <= time_seconds(high, high_unit) <= 60
        }),
{
    lemma_plain(file, scope);
    lemma_retries_alone(inputs);
    lemma_range_alone(policy);
    lemma_unmarked_is_literal(kind);
    lemma_retry_policy_type_names(kind);
    lemma_kinds_apart(kind);
    let at = joined(base, "retryPolicy"@);
    lemma_interval(
        policy,
        at,
        "minimumInterval"@,
        label + ".retryPolicy.minimumInterval"@,
        low,
        low_unit,
        file,
        workflow,
        scope,
    );
    lemma_interval(
        policy,
        at,
        "maximumInterval"@,
        label + ".retryPolicy.maximumInterval"@,
        high,
        high_unit,
        file,
        workflow,
        scope,
    );
    let l = seq!['P', 'T'] + low + seq![low_unit];
    let h = seq!['P', 'T'] + high + seq![high_unit];
    lemma_unmarked_is_literal(l);
    lemma_unmarked_is_literal(h);
    law_lengths_are_ordered_as_numbers(time_seconds(high, high_unit), time_seconds(low, low_unit), 0);
    assert(is_longer(l, h) == (time_seconds(low, low_unit) > time_seconds(high, high_unit)));
    let bounds = bounds_of(workflow);
    let typed = retry_type_findings(policy, at, label, file);
    let needed = retry_required_findings(policy, at, file);
    let order = retry_order_findings(policy, at, label, file);
    let shortest = retry_interval_findings(
        policy,
        at,
        "minimumInterval"@,
        label + ".retryPolicy.minimumInterval"@,
        bounds,
        file,
    );
    let longest = retry_interval_findings(
        policy,
        at,
        "maximumInterval"@,
        label + ".retryPolicy.maximumInterval"@,
        bounds,
        file,
    );
    assert(typed.len() == 0 && needed.len() == 0);
    let object = retry_policy_object_findings(policy, at, label, bounds, file);
    assert((object.len() == 0) == (shortest.len() == 0 && longest.len() == 0 && order.len() == 0));
    assert(http_inputs_findings(inputs, base, label, bounds, file).len() == object.len());
}

} // verus!
