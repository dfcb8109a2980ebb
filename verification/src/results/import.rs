use vstd::prelude::*;
use crate::error::BridgeError;
use crate::helpers::{readable, string_or_null, text_or_nil, transformed};
use crate::term::{field_views, put_field, Term, TermView};

verus! {

/// One key that an import touched, as the engine reports it. The
/// fingerprint is the engine's bytes, absent where it has none.
#[derive(Debug, PartialEq, Eq)]
pub struct Import {
    pub fingerprint: Option<Vec<u8>>,
}

/// The record that an import becomes, if its fingerprint can be read.
pub open spec fn import_term(import: Import) -> Option<TermView> {
    if readable(import.fingerprint) {
        Some(
            TermView::Record(
                "Elixir.ExGpgme.Results.Import"@,
                seq![("fingerprint"@, text_or_nil(import.fingerprint))],
            ),
        )
    } else {
        None
    }
}

/// Writes an import as a host record. Fails if the fingerprint is not valid
/// UTF-8.
pub fn transform_import(import: &Import) -> (r: Result<Term, BridgeError>)
    ensures
        transformed(r, import_term(*import)),
{
    let fingerprint = match string_or_null(&import.fingerprint) {
        Ok(term) => term,
        Err(_) => {
            return Err(BridgeError::DecodeFailure);
        },
    };
    let mut fields: Vec<(String, Term)> = Vec::new();
    assert(field_views(fields@) =~= Seq::empty());
    put_field(&mut fields, "fingerprint", fingerprint);
    assert(field_views(fields@) =~= import_term(*import)->Some_0->Record_1);
    Ok(Term::record("Elixir.ExGpgme.Results.Import", fields))
}

} // verus!
