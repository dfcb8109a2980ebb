use vstd::prelude::*;
use vstd::utf8::{decode_utf8, valid_utf8};
use crate::engine::{engine_info_term, engine_info_to_term, EngineInfo};
use crate::error::BridgeError;
use crate::helpers::utf8_text;
use crate::keys::{wrap_key, Key, KeyResource};
use crate::results::import_result::{import_result_term, transform_import_result, ImportResult};
use crate::results::verification_result::{
    transform_verification_result,
    verification_result_term,
    VerificationResult,
};
use crate::term::{tagged_view, Term, TermView};

verus! {

/// The answer to a call that went well and has nothing to hand back.
pub open spec fn ok_view() -> TermView {
    TermView::Atom("ok"@)
}

/// The answer to a call that went well, with what it hands back.
pub open spec fn ok_with_view(payload: TermView) -> TermView {
    tagged_view("ok"@, payload)
}

/// The answer to a call that failed, with the description of the failure.
pub open spec fn error_view(description: Seq<char>) -> TermView {
    tagged_view("error"@, TermView::Text(description))
}

/// The answer to a query for a flag that has no value.
pub open spec fn not_set_view() -> TermView {
    tagged_view("error"@, TermView::Atom("not_set"@))
}

/// The answer to a call whose outcome is not valid UTF-8.
pub open spec fn undecodable_view() -> TermView {
    error_view("Could not decode cyphertext to utf8"@)
}

/// The answer for bytes that the engine produced: the text they spell, or
/// the failure to decode them.
pub open spec fn payload_view(bytes: Seq<u8>) -> TermView {
    if valid_utf8(bytes) {
        ok_with_view(TermView::Text(decode_utf8(bytes)))
    } else {
        undecodable_view()
    }
}

/// The answer for a record that a transform owes: the record, or the
/// failure to decode it where it owes none.
pub open spec fn record_view(record: Option<TermView>) -> TermView {
    match record {
        Some(term) => ok_with_view(term),
        None => undecodable_view(),
    }
}

/// Answers that a call went well.
pub fn ok_reply() -> (r: Term)
    ensures
        r@ == ok_view(),
{
    Term::atom("ok")
}

/// Answers that a call went well, and hands back `payload`.
pub fn ok_with(payload: Term) -> (r: Term)
    ensures
        r@ == ok_with_view(payload@),
{
    Term::tagged("ok", payload)
}

/// Answers that a call failed, with the description of the failure.
pub fn error_with(description: String) -> (r: Term)
    ensures
        r@ == error_view(description@),
{
    Term::tagged("error", Term::text(description))
}

/// Answers that a flag has no value.
pub fn not_set_reply() -> (r: Term)
    ensures
        r@ == not_set_view(),
{
    Term::tagged("error", Term::atom("not_set"))
}

/// Answers that the outcome of a call is not valid UTF-8.
pub fn undecodable_reply() -> (r: Term)
    ensures
        r@ == undecodable_view(),
{
    Term::tagged("error", Term::literal("Could not decode cyphertext to utf8"))
}

/// Answers with the text that the engine's bytes spell. Bytes that are not
/// valid UTF-8 give the failure to decode, never a part of the text.
pub fn decode_context_result(bytes: &Vec<u8>) -> (r: Term)
    ensures
        r@ == payload_view(bytes@),
{
    match utf8_text(bytes) {
        Some(text) => ok_with(Term::text(text)),
        None => undecodable_reply(),
    }
}

/// Answers for engine work that hands back bytes: a failure of the engine as
/// it described it, else the decoded bytes.
pub fn payload_reply(outcome: &Result<Vec<u8>, String>) -> (r: Term)
    ensures
        r@ == (match *outcome {
            Ok(bytes) => payload_view(bytes@),
            Err(description) => error_view(description@),
        }),
{
    match outcome {
        Ok(bytes) => decode_context_result(bytes),
        Err(description) => error_with(description.clone()),
    }
}

/// The answer for the value of a flag as the engine reports it: that the
/// flag is not set where the engine has no value, else the text that the
/// value spells, or the failure to decode it.
pub open spec fn flag_view(value: Option<Vec<u8>>) -> TermView {
    match value {
        Some(bytes) => payload_view(bytes@),
        None => not_set_view(),
    }
}

/// Answers for a query for a flag. A flag without a value is an answer of
/// its own, not a fault.
pub fn flag_reply(value: &Option<Vec<u8>>) -> (r: Term)
    ensures
        r@ == flag_view(*value),
{
    match value {
        Some(bytes) => decode_context_result(bytes),
        None => not_set_reply(),
    }
}

/// Answers for engine work that hands back nothing.
pub fn done_reply(outcome: &Result<(), String>) -> (r: Term)
    ensures
        r@ == (match *outcome {
            Ok(_) => ok_view(),
            Err(description) => error_view(description@),
        }),
{
    match outcome {
        Ok(_) => ok_reply(),
        Err(description) => error_with(description.clone()),
    }
}

/// Answers for a search for a key: a handle to the key that was found.
pub fn key_reply(outcome: &Result<Key, String>) -> (r: Term)
    ensures
        r@ == (match *outcome {
            Ok(key) => ok_with_view(TermView::Key(KeyResource { key })),
            Err(description) => error_view(description@),
        }),
{
    match outcome {
        Ok(key) => ok_with(Term::Key(wrap_key(*key))),
        Err(description) => error_with(description.clone()),
    }
}

/// Answers for an import: the record of what it did.
pub fn import_reply(outcome: &Result<ImportResult, String>) -> (r: Term)
    ensures
        r@ == (match *outcome {
            Ok(result) => record_view(import_result_term(result)),
            Err(description) => error_view(description@),
        }),
{
    match outcome {
        Ok(result) => match transform_import_result(result) {
            Ok(record) => ok_with(record),
            Err(_) => undecodable_reply(),
        },
        Err(description) => error_with(description.clone()),
    }
}

/// Answers for a verification: the record of what it found, whole or not
/// at all.
pub fn verification_reply(outcome: &Result<VerificationResult, String>) -> (r: Term)
    ensures
        r@ == (match *outcome {
            Ok(result) => record_view(verification_result_term(result)),
            Err(description) => error_view(description@),
        }),
{
    match outcome {
        Ok(result) => match transform_verification_result(result) {
            Ok(record) => ok_with(record),
            Err(_) => undecodable_reply(),
        },
        Err(description) => error_with(description.clone()),
    }
}

/// Answers for a look at the engine's description: the record itself, or
/// the failure to decode it.
pub fn engine_info_reply(info: &EngineInfo) -> (r: Term)
    ensures
        r@ == (match engine_info_term(*info) {
            Some(record) => record,
            None => undecodable_view(),
        }),
{
    match engine_info_to_term(info) {
        Ok(record) => record,
        Err(_) => undecodable_reply(),
    }
}

/// The answer that tells the host of an error, where there is one: a bad
/// argument is raised through the host's own channel for argument errors
/// and has no answer.
pub open spec fn error_reply_view(error: BridgeError) -> Option<TermView> {
    match error {
        BridgeError::BadArgument => None,
        BridgeError::EngineFailure(description) => Some(error_view(description@)),
        BridgeError::NotSet => Some(not_set_view()),
        BridgeError::DecodeFailure => Some(undecodable_view()),
    }
}

/// Writes an error as the answer that tells the host of it.
pub fn error_reply(error: &BridgeError) -> (r: Option<Term>)
    ensures
        match error_reply_view(*error) {
            Some(term) => r is Some && r->Some_0@ == term,
            None => r is None,
        },
{
    match error {
        BridgeError::BadArgument => None,
        BridgeError::EngineFailure(description) => Some(error_with(description.clone())),
        BridgeError::NotSet => Some(not_set_reply()),
        BridgeError::DecodeFailure => Some(undecodable_reply()),
    }
}

} // verus!
