use vstd::prelude::*;
use crate::error::BridgeError;
use crate::helpers::{readable, string_or_null, text_or_nil, transformed};
use crate::term::{bool_view, field_views, put_field, Term, TermView};

verus! {

/// A notation attached to a signature, as the engine reports it. Name and
/// value are the engine's bytes, absent where it has none.
#[derive(Debug, PartialEq, Eq)]
pub struct SignatureNotation {
    pub is_human_readable: bool,
    pub is_critical: bool,
    pub name: Option<Vec<u8>>,
    pub value: Option<Vec<u8>>,
}

/// The record that a notation becomes, if its name and value can be read.
pub open spec fn notation_term(notation: SignatureNotation) -> Option<TermView> {
    if readable(notation.name) && readable(notation.value) {
        Some(
            TermView::Record(
                "Elixir.ExGpgme.Notation.SignatureNotation"@,
                seq![
                    ("is_human_readable"@, bool_view(notation.is_human_readable)),
                    ("is_critical"@, bool_view(notation.is_critical)),
                    ("name"@, text_or_nil(notation.name)),
                    ("value"@, text_or_nil(notation.value)),
                ],
            ),
        )
    } else {
        None
    }
}

/// Writes a notation as a host record. Fails as a whole if its name or its
/// value is not valid UTF-8.
pub fn transform_signature_notation(notation: &SignatureNotation) -> (r: Result<
    Term,
    BridgeError,
>)
    ensures
        transformed(r, notation_term(*notation)),
{
    let name = match string_or_null(&notation.name) {
        Ok(term) => term,
        Err(_) => {
            return Err(BridgeError::DecodeFailure);
        },
    };
    let value = match string_or_null(&notation.value) {
        Ok(term) => term,
        Err(_) => {
            return Err(BridgeError::DecodeFailure);
        },
    };
    let mut fields: Vec<(String, Term)> = Vec::new();
    assert(field_views(fields@) =~= Seq::empty());
    put_field(&mut fields, "is_human_readable", Term::boolean(notation.is_human_readable));
    put_field(&mut fields, "is_critical", Term::boolean(notation.is_critical));
    put_field(&mut fields, "name", name);
    put_field(&mut fields, "value", value);
    assert(field_views(fields@) =~= notation_term(*notation)->Some_0->Record_1);
    Ok(Term::record("Elixir.ExGpgme.Notation.SignatureNotation", fields))
}

} // verus!
