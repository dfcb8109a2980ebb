use vstd::prelude::*;
use vstd::utf8::{decode_utf8, valid_utf8};
use crate::error::BridgeError;
use crate::term::{nil_view, Term, TermView};

verus! {

/// The text that a run of bytes spells in UTF-8, if it spells any.
///
/// Calls `std::str::from_utf8` and copies the text out. Trusted: the call
/// succeeds exactly on valid UTF-8, and the text is then the decoding of
/// the bytes.
#[verifier::external_body]
pub(crate) fn utf8_text(bytes: &Vec<u8>) -> (r: Option<String>)
    ensures
        r is Some <==> valid_utf8(bytes@),
        r is Some ==> r->Some_0@ == decode_utf8(bytes@),
{
    match std::str::from_utf8(bytes) {
        Ok(text) => Some(String::from(text)),
        Err(_) => None,
    }
}

/// Whether a text field of the engine can be read: it is absent, or its
/// bytes are valid UTF-8.
pub open spec fn readable(raw: Option<Vec<u8>>) -> bool {
    match raw {
        Some(bytes) => valid_utf8(bytes@),
        None => true,
    }
}

/// The host value of a readable text field of the engine: the host's null
/// for an absent one, else the text that the bytes spell.
pub open spec fn text_or_nil(raw: Option<Vec<u8>>) -> TermView {
    match raw {
        Some(bytes) => TermView::Text(decode_utf8(bytes@)),
        None => nil_view(),
    }
}

/// Whether `r` is the outcome of a transform that is owed `expected`:
/// a term of that value, or the decode failure where none is owed.
pub open spec fn transformed(r: Result<Term, BridgeError>, expected: Option<TermView>) -> bool {
    match expected {
        Some(t) => r is Ok && r->Ok_0@ == t,
        None => r == Err::<Term, BridgeError>(BridgeError::DecodeFailure),
    }
}

/// Writes a text field of the engine as a host value. An absent field is
/// the host's null; bytes that are not valid UTF-8 are a decode failure,
/// never a shortened or patched text.
pub fn string_or_null(raw: &Option<Vec<u8>>) -> (r: Result<Term, BridgeError>)
    ensures
        transformed(
            r,
            if readable(*raw) {
                Some(text_or_nil(*raw))
            } else {
                None
            },
        ),
{
    match raw {
        Some(bytes) => match utf8_text(bytes) {
            Some(text) => Ok(Term::text(text)),
            None => Err(BridgeError::DecodeFailure),
        },
        None => Ok(Term::nil()),
    }
}

} // verus!
