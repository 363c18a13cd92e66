//! What a vault operation or a capability check reports when it fails.

use vstd::prelude::*;

use crate::node_id::{hex_fault_message, hex_fault_text, NodeIdFault};

verus! {

/// The JSON inputs that the library reads.
#[derive(Clone, Copy, Debug, PartialEq, Eq, Structural)]
pub enum JsonInput {
    Snapshot,
    GrantNames,
    AuthProof,
    AcceptedRoots,
    SelfTags,
    CapabilityChain,
    Revoked,
}

/// A failed operation.
#[derive(Debug)]
pub enum VaultError {
    /// The vault itself failed, with this text.
    Vault(String),
    /// An input is not the JSON it should be; `cause` is the reader's own text.
    Json { input: JsonInput, cause: String },
    /// A node id cannot be read.
    NodeId(NodeIdFault),
    /// The capability chain does not authorize the request, for this reason.
    Denied(String),
}

impl JsonInput {
    /// What was being read, in words.
    pub open spec fn context_text(self) -> Seq<char> {
        match self {
            JsonInput::Snapshot => "parse snapshot JSON (expected an object of key -> record)"@,
            JsonInput::GrantNames =>
                "parse grant secret-names JSON (expected an array of strings)"@,
            JsonInput::AuthProof => "parse auth proof JSON"@,
            JsonInput::AcceptedRoots => "parse accepted_roots JSON"@,
            JsonInput::SelfTags => "parse self_tags JSON"@,
            JsonInput::CapabilityChain => "parse capability chain JSON"@,
            JsonInput::Revoked => "parse revoked JSON (array of [hex, nonce])"@,
        }
    }

    /// What was being read, in words.
    pub fn context(self) -> (text: &'static str)
        ensures
            text@ == self.context_text(),
    {
        match self {
            JsonInput::Snapshot => "parse snapshot JSON (expected an object of key -> record)",
            JsonInput::GrantNames => "parse grant secret-names JSON (expected an array of strings)",
            JsonInput::AuthProof => "parse auth proof JSON",
            JsonInput::AcceptedRoots => "parse accepted_roots JSON",
            JsonInput::SelfTags => "parse self_tags JSON",
            JsonInput::CapabilityChain => "parse capability chain JSON",
            JsonInput::Revoked => "parse revoked JSON (array of [hex, nonce])",
        }
    }
}

impl VaultError {
    /// The text of an error: its outermost description.
    pub open spec fn message_text(self) -> Seq<char> {
        match self {
            VaultError::Vault(text) => text@,
            VaultError::Json { input, cause } => input.context_text(),
            VaultError::NodeId(NodeIdFault::Hex(_)) => "node id is not valid hex"@,
            VaultError::NodeId(NodeIdFault::Length) => "node id must be 32 bytes (64 hex chars)"@,
            VaultError::Denied(reason) => reason@,
        }
    }

    /// The text of what caused an error, where that is another text than the error's own.
    pub open spec fn cause_text(self) -> Option<Seq<char>> {
        match self {
            VaultError::Json { input, cause } => Some(cause@),
            VaultError::NodeId(NodeIdFault::Hex(fault)) => Some(hex_fault_text(fault)),
            _ => None,
        }
    }

    /// The outermost description of the error.
    pub fn message(&self) -> (text: String)
        ensures
            text@ == self.message_text(),
    {
        match self {
            VaultError::Vault(text) => text.clone(),
            VaultError::Json { input, cause: _ } => input.context().to_string(),
            VaultError::NodeId(NodeIdFault::Hex(_)) => "node id is not valid hex".to_string(),
            VaultError::NodeId(NodeIdFault::Length) => {
                "node id must be 32 bytes (64 hex chars)".to_string()
            },
            VaultError::Denied(reason) => reason.clone(),
        }
    }

    /// What caused the error, where that is told beside the error's own text.
    pub fn cause(&self) -> (cause: Option<String>)
        ensures
            match (cause, self.cause_text()) {
                (Some(cause), Some(text)) => cause@ == text,
                (None, None) => true,
                _ => false,
            },
    {
        match self {
            VaultError::Json { input: _, cause } => Some(cause.clone()),
            VaultError::NodeId(NodeIdFault::Hex(fault)) => Some(hex_fault_message(*fault)),
            _ => None,
        }
    }
}

/// The text that is thrown to JavaScript for an error: the error's own text.
pub fn js_err(error: VaultError) -> (text: String)
    ensures
        text@ == error.message_text(),
        error matches VaultError::Vault(reason) ==> text == reason,
        error matches VaultError::Denied(reason) ==> text == reason,
{
    match error {
        VaultError::Vault(reason) => reason,
        VaultError::Denied(reason) => reason,
        error => error.message(),
    }
}

/// A reply of the vault, as a result of the library.
pub open spec fn lifted<T>(reply: Result<T, String>) -> Result<T, VaultError> {
    match reply {
        Ok(value) => Ok(value),
        Err(text) => Err(VaultError::Vault(text)),
    }
}

/// Passes a reply of the vault on as a result of the library.
pub(crate) fn lift<T>(reply: Result<T, String>) -> (result: Result<T, VaultError>)
    ensures
        result == lifted(reply),
{
    match reply {
        Ok(value) => Ok(value),
        Err(text) => Err(VaultError::Vault(text)),
    }
}

/// Whether `thrown` is `result` for a JavaScript caller: the same value, or the
/// text that is thrown for the error.
pub open spec fn is_thrown<T>(result: Result<T, VaultError>, thrown: Result<T, String>) -> bool {
    match (result, thrown) {
        (Ok(value), Ok(same)) => value == same,
        (Err(error), Err(text)) => text@ == error.message_text(),
        _ => false,
    }
}

/// Turns a result of the library into one for a JavaScript caller.
pub(crate) fn throw<T>(result: Result<T, VaultError>) -> (thrown: Result<T, String>)
    ensures
        is_thrown(result, thrown),
        forall|reply: Result<T, String>| result == #[trigger] lifted(reply) ==> thrown == reply,
        result matches Err(VaultError::Vault(text)) ==> thrown == Err::<T, String>(text),
{
    match result {
        Ok(value) => Ok(value),
        Err(error) => Err(js_err(error)),
    }
}

/// Whether `result` reports that `input` is not the JSON it should be, with `cause`.
pub open spec fn is_json_fault<T>(
    result: Result<T, VaultError>,
    input: JsonInput,
    cause: Seq<char>,
) -> bool {
    match result {
        Err(VaultError::Json { input: reported, cause: text }) => reported == input && text@
            == cause,
        _ => false,
    }
}

} // verus!
