//! The operations that the interface layer can invoke, and their names.

use vstd::prelude::*;
use vstd::string::StringSliceAdditionalSpecFns;
use vstd::utf8::{decode_utf8, encode_utf8_decode_utf8};

verus! {

/// Name under which the configuration is asked for.
pub const GET_APP_CONFIG: &'static str = "get_app_config";

/// Name under which the backend's health is asked for.
pub const CHECK_BACKEND_HEALTH: &'static str = "check_backend_health";

/// Name under which a link is opened.
pub const OPEN_EXTERNAL_LINK: &'static str = "open_external_link";

/// An operation of the bridge. The three are independent: none needs another
/// to have run before it.
#[derive(Clone, Copy, Debug, PartialEq, Eq, Structural)]
pub enum Operation {
    /// Hands out the configuration record; takes no argument.
    GetAppConfig,
    /// Reports the backend's health; takes no argument.
    CheckBackendHealth,
    /// Opens a link on the host; takes the link as `url`.
    OpenExternalLink,
}

/// The name by which the interface layer invokes `operation`.
pub open spec fn operation_name(operation: Operation) -> Seq<char> {
    match operation {
        Operation::GetAppConfig => GET_APP_CONFIG@,
        Operation::CheckBackendHealth => CHECK_BACKEND_HEALTH@,
        Operation::OpenExternalLink => OPEN_EXTERNAL_LINK@,
    }
}

/// Whether `name` is the name of one of the bridge's operations.
pub open spec fn is_registered(name: Seq<char>) -> bool {
    exists|operation: Operation| operation_name(operation) == name
}

/// The operation that is invoked by `name`, if there is one.
pub open spec fn operation_named(name: Seq<char>) -> Option<Operation> {
    if is_registered(name) {
        Some(choose|operation: Operation| operation_name(operation) == name)
    } else {
        None
    }
}

/// Whether two string slices hold the same text.
fn same_text(left: &str, right: &str) -> (same: bool)
    ensures
        same == (left@ == right@),
{
    let a = left.as_bytes();
    let b = right.as_bytes();
    proof {
        // Two texts with the same bytes are the same text.
        encode_utf8_decode_utf8(left@);
        encode_utf8_decode_utf8(right@);
    }
    if a.len() != b.len() {
        return false;
    }
    let mut i: usize = 0;
    while i < a.len()
        invariant
            i <= a.len(),
            a.len() == b.len(),
            a@ == left.spec_bytes(),
            b@ == right.spec_bytes(),
            decode_utf8(left.spec_bytes()) == left@,
            decode_utf8(right.spec_bytes()) == right@,
            forall|k: int| 0 <= k < i ==> a@[k] == b@[k],
        decreases a.len() - i,
    {
        if a[i] != b[i] {
            return false;
        }
        i += 1;
    }
    assert(a@ =~= b@);
    true
}

impl Operation {
    /// The name by which the interface layer invokes this operation.
    pub fn name(self) -> (name: &'static str)
        ensures
            name@ == operation_name(self),
    {
        match self {
            Operation::GetAppConfig => GET_APP_CONFIG,
            Operation::CheckBackendHealth => CHECK_BACKEND_HEALTH,
            Operation::OpenExternalLink => OPEN_EXTERNAL_LINK,
        }
    }

    /// Looks an operation up by the name it was invoked with. A name that is
    /// not registered, however close, finds nothing.
    pub fn from_name(name: &str) -> (found: Option<Operation>)
        ensures
            found == operation_named(name@),
    {
        let found = if same_text(name, GET_APP_CONFIG) {
            Some(Operation::GetAppConfig)
        } else if same_text(name, CHECK_BACKEND_HEALTH) {
            Some(Operation::CheckBackendHealth)
        } else if same_text(name, OPEN_EXTERNAL_LINK) {
            Some(Operation::OpenExternalLink)
        } else {
            None
        };
        proof {
            match found {
                Some(operation) => {
                    lemma_lookup_inverts_name(operation);
                },
                None => {
                    assert forall|operation: Operation| operation_name(operation) != name@ by {
                        match operation {
                            Operation::GetAppConfig => {},
                            Operation::CheckBackendHealth => {},
                            Operation::OpenExternalLink => {},
                        }
                    }
                },
            }
        }
        found
    }
}

/// No two operations share a name.
pub proof fn lemma_names_are_distinct(first: Operation, second: Operation)
    requires
        first != second,
    ensures
        operation_name(first) != operation_name(second),
{
    reveal_strlit("get_app_config");
    reveal_strlit("check_backend_health");
    reveal_strlit("open_external_link");
    assert(GET_APP_CONFIG@.len() == 14);
    assert(CHECK_BACKEND_HEALTH@.len() == 20);
    assert(OPEN_EXTERNAL_LINK@.len() == 18);
}

/// Looking up the name of an operation finds that operation.
pub proof fn lemma_lookup_inverts_name(operation: Operation)
    ensures
        operation_named(operation_name(operation)) == Some(operation),
{
    let name = operation_name(operation);
    assert(is_registered(name));
    let chosen = choose|other: Operation| operation_name(other) == name;
    if chosen != operation {
        lemma_names_are_distinct(chosen, operation);
    }
}

/// A lookup finds an operation exactly when the name is that operation's
/// name: nothing else is registered.
pub proof fn lemma_lookup_is_exact(name: Seq<char>, operation: Operation)
    ensures
        operation_named(name) == Some(operation) <==> operation_name(operation) == name,
{
    if operation_name(operation) == name {
        lemma_lookup_inverts_name(operation);
    }
}

} // verus!
