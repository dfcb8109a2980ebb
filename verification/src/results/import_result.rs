use vstd::prelude::*;
use crate::error::BridgeError;
use crate::helpers::transformed;
use crate::results::import::{import_term, transform_import, Import};
use crate::term::{field_views, put_field, put_item, views, Term, TermView};

verus! {

/// What an import did, as the engine reports it: its counts, and the keys
/// it touched in the engine's order.
#[derive(Debug, PartialEq, Eq)]
pub struct ImportResult {
    pub considered: u32,
    pub without_user_id: u32,
    pub imported: u32,
    pub imported_rsa: u32,
    pub unchanged: u32,
    pub new_user_ids: u32,
    pub new_subkeys: u32,
    pub new_signatures: u32,
    pub new_revocations: u32,
    pub secret_considered: u32,
    pub secret_imported: u32,
    pub secret_unchanged: u32,
    pub not_imported: u32,
    pub imports: Vec<Import>,
}

/// The records that a sequence of imports becomes, in the same order. There
/// is none if any of them cannot be read.
pub open spec fn import_terms(imports: Seq<Import>) -> Option<Seq<TermView>>
    decreases imports.len(),
{
    if imports.len() == 0 {
        Some(Seq::empty())
    } else {
        match (import_terms(imports.drop_last()), import_term(imports.last())) {
            (Some(terms), Some(term)) => Some(terms.push(term)),
            _ => None,
        }
    }
}

/// A sequence of imports with a beginning that cannot be read cannot be
/// read itself.
pub proof fn lemma_import_terms_prefix(imports: Seq<Import>, n: int)
    requires
        0 <= n <= imports.len(),
        import_terms(imports.take(n)) is None,
    ensures
        import_terms(imports) is None,
    decreases imports.len() - n,
{
    if n == imports.len() {
        assert(imports.take(n) =~= imports);
    } else {
        assert(imports.take(n + 1).drop_last() =~= imports.take(n));
        lemma_import_terms_prefix(imports, n + 1);
    }
}

/// The record that an import result becomes, if all its imports can be
/// read.
pub open spec fn import_result_term(result: ImportResult) -> Option<TermView> {
    match import_terms(result.imports@) {
        Some(imports) => Some(
            TermView::Record(
                "Elixir.ExGpgme.Results.ImportResult"@,
                seq![
                    ("considered"@, TermView::Integer(result.considered as i128)),
                    ("without_user_id"@, TermView::Integer(result.without_user_id as i128)),
                    ("imported"@, TermView::Integer(result.imported as i128)),
                    ("imported_rsa"@, TermView::Integer(result.imported_rsa as i128)),
                    ("unchanged"@, TermView::Integer(result.unchanged as i128)),
                    ("new_user_ids"@, TermView::Integer(result.new_user_ids as i128)),
                    ("new_subkeys"@, TermView::Integer(result.new_subkeys as i128)),
                    ("new_signatures"@, TermView::Integer(result.new_signatures as i128)),
                    ("new_revocations"@, TermView::Integer(result.new_revocations as i128)),
                    ("secret_considered"@, TermView::Integer(result.secret_considered as i128)),
                    ("secret_imported"@, TermView::Integer(result.secret_imported as i128)),
                    ("secret_unchanged"@, TermView::Integer(result.secret_unchanged as i128)),
                    ("not_imported"@, TermView::Integer(result.not_imported as i128)),
                    ("imports"@, TermView::List(imports)),
                ],
            ),
        ),
        None => None,
    }
}

/// Writes an import result as a host record, its imports in the engine's
/// order. One import that cannot be read fails the whole transform.
pub fn transform_import_result(result: &ImportResult) -> (r: Result<Term, BridgeError>)
    ensures
        transformed(r, import_result_term(*result)),
{
    let ghost imports = result.imports@;
    let mut terms: Vec<Term> = Vec::new();
    let mut i: usize = 0;
    assert(imports.take(0) =~= Seq::<Import>::empty());
    assert(views(terms@) =~= Seq::<TermView>::empty());
    while i < result.imports.len()
        invariant
            0 <= i <= result.imports.len(),
            imports == result.imports@,
            import_terms(imports.take(i as int)) == Some(views(terms@)),
        decreases result.imports.len() - i,
    {
        proof {
            assert(imports.take(i + 1).drop_last() =~= imports.take(i as int));
            assert(imports.take(i + 1).last() == imports[i as int]);
        }
        match transform_import(&result.imports[i]) {
            Ok(term) => {
                put_item(&mut terms, term);
            },
            Err(_) => {
                proof {
                    lemma_import_terms_prefix(imports, i + 1);
                }
                return Err(BridgeError::DecodeFailure);
            },
        }
        i = i + 1;
    }
    assert(imports.take(i as int) =~= imports);
    let mut fields: Vec<(String, Term)> = Vec::new();
    assert(field_views(fields@) =~= Seq::empty());
    put_field(&mut fields, "considered", Term::integer(result.considered as i128));
    put_field(&mut fields, "without_user_id", Term::integer(result.without_user_id as i128));
    put_field(&mut fields, "imported", Term::integer(result.imported as i128));
    put_field(&mut fields, "imported_rsa", Term::integer(result.imported_rsa as i128));
    put_field(&mut fields, "unchanged", Term::integer(result.unchanged as i128));
    put_field(&mut fields, "new_user_ids", Term::integer(result.new_user_ids as i128));
    put_field(&mut fields, "new_subkeys", Term::integer(result.new_subkeys as i128));
    put_field(&mut fields, "new_signatures", Term::integer(result.new_signatures as i128));
    put_field(&mut fields, "new_revocations", Term::integer(result.new_revocations as i128));
    put_field(&mut fields, "secret_considered", Term::integer(result.secret_considered as i128));
    put_field(&mut fields, "secret_imported", Term::integer(result.secret_imported as i128));
    put_field(&mut fields, "secret_unchanged", Term::integer(result.secret_unchanged as i128));
    put_field(&mut fields, "not_imported", Term::integer(result.not_imported as i128));
    put_field(&mut fields, "imports", Term::list(terms));
    assert(field_views(fields@) =~= import_result_term(*result)->Some_0->Record_1);
    Ok(Term::record("Elixir.ExGpgme.Results.ImportResult", fields))
}

} // verus!
