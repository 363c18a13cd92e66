//! What errors say, in each case.

use vstd::prelude::*;

use crate::error::{js_err, JsonInput, VaultError};
use crate::node_id::{invalid_character_text, HexFault, NodeIdFault};

verus! {

/// Whether `text` says that an input is not the JSON it should be.
pub open spec fn names_input(input: JsonInput, text: Seq<char>) -> bool {
    &&& input is Snapshot ==> text
        == "parse snapshot JSON (expected an object of key -> record)"@
    &&& input is GrantNames ==> text
        == "parse grant secret-names JSON (expected an array of strings)"@
    &&& input is AuthProof ==> text == "parse auth proof JSON"@
    &&& input is AcceptedRoots ==> text == "parse accepted_roots JSON"@
    &&& input is SelfTags ==> text == "parse self_tags JSON"@
    &&& input is CapabilityChain ==> text == "parse capability chain JSON"@
    &&& input is Revoked ==> text == "parse revoked JSON (array of [hex, nonce])"@
}

/// Whether `text` is what an error says: the vault's and the authorizer's own words, or
/// what could not be read.
pub open spec fn says(error: VaultError, text: Seq<char>) -> bool {
    &&& error matches VaultError::Vault(words) ==> text == words@
    &&& error matches VaultError::Denied(reason) ==> text == reason@
    &&& error matches VaultError::Json { input, cause } ==> names_input(input, text)
    &&& error matches VaultError::NodeId(NodeIdFault::Hex(_)) ==> text
        == "node id is not valid hex"@
    &&& error matches VaultError::NodeId(NodeIdFault::Length) ==> text
        == "node id must be 32 bytes (64 hex chars)"@
}

/// The text of an error, and the text that is thrown for it, is what the error says. The
/// vault's and the authorizer's words are thrown as they came.
pub proof fn an_error_says_what_went_wrong(error: VaultError, message: String, thrown: String)
    requires
        call_ensures(VaultError::message, (&error,), message),
        call_ensures(js_err, (error,), thrown),
    ensures
        says(error, message@),
        says(error, thrown@),
        error matches VaultError::Vault(words) ==> thrown == words,
        error matches VaultError::Denied(reason) ==> thrown == reason,
{
}

/// An input is named by its own words.
pub proof fn an_input_is_named(input: JsonInput, text: &'static str)
    requires
        call_ensures(JsonInput::context, (input,), text),
    ensures
        names_input(input, text@),
{
}

/// The cause of an error is the reader's own text for JSON, the decoder's for digits, and
/// is absent otherwise.
pub proof fn a_cause_is_the_reader_s(error: VaultError, cause: Option<String>)
    requires
        call_ensures(VaultError::cause, (&error,), cause),
    ensures
        error matches VaultError::Json { input, cause: words } ==> (cause matches Some(text)
            && text@ == words@),
        error matches VaultError::NodeId(NodeIdFault::Hex(HexFault::OddLength)) ==> (
        cause matches Some(text) && text@ == "Odd number of digits"@),
        error matches VaultError::NodeId(NodeIdFault::Hex(HexFault::InvalidStringLength)) ==> (
        cause matches Some(text) && text@ == "Invalid string length"@),
        error matches VaultError::NodeId(
            NodeIdFault::Hex(HexFault::InvalidHexCharacter { c, index }),
        ) ==> (cause matches Some(text) && text@ == invalid_character_text(c, index)),
        error matches VaultError::NodeId(NodeIdFault::Length) ==> cause is None,
        error is Vault || error is Denied ==> cause is None,
{
}

} // verus!
