use vstd::prelude::*;
use crate::error::BridgeError;
use crate::helpers::{readable, string_or_null, text_or_nil, transformed};
use crate::results::signature::{signature_term, transform_signature, Signature};
use crate::term::{field_views, put_field, put_item, views, Term, TermView};

verus! {

/// What a verification found, as the engine reports it: the file name that
/// the signed data carried, and the signatures in the engine's order.
#[derive(Debug, PartialEq, Eq)]
pub struct VerificationResult {
    pub filename: Option<Vec<u8>>,
    pub signatures: Vec<Signature>,
}

/// The records that a sequence of signatures becomes, in the same order.
/// There is none if any of them cannot be read.
pub open spec fn signature_terms(signatures: Seq<Signature>) -> Option<Seq<TermView>>
    decreases signatures.len(),
{
    if signatures.len() == 0 {
        Some(Seq::empty())
    } else {
        match (signature_terms(signatures.drop_last()), signature_term(signatures.last())) {
            (Some(terms), Some(term)) => Some(terms.push(term)),
            _ => None,
        }
    }
}

/// A sequence of signatures with a beginning that cannot be read cannot be
/// read itself.
pub proof fn lemma_signature_terms_prefix(signatures: Seq<Signature>, n: int)
    requires
        0 <= n <= signatures.len(),
        signature_terms(signatures.take(n)) is None,
    ensures
        signature_terms(signatures) is None,
    decreases signatures.len() - n,
{
    if n == signatures.len() {
        assert(signatures.take(n) =~= signatures);
    } else {
        assert(signatures.take(n + 1).drop_last() =~= signatures.take(n));
        lemma_signature_terms_prefix(signatures, n + 1);
    }
}

/// The record that a verification result becomes, if its file name and all
/// its signatures can be read.
pub open spec fn verification_result_term(result: VerificationResult) -> Option<TermView> {
    if readable(result.filename) {
        match signature_terms(result.signatures@) {
            Some(signatures) => Some(
                TermView::Record(
                    "Elixir.ExGpgme.Results.VerificationResult"@,
                    seq![
                        ("filename"@, text_or_nil(result.filename)),
                        ("signatures"@, TermView::List(signatures)),
                    ],
                ),
            ),
            None => None,
        }
    } else {
        None
    }
}

/// One signature that cannot be read leaves the whole verification result
/// without a record: the transform then fails with the decode failure and
/// hands out no part of the result.
pub proof fn lemma_unreadable_signature_fails(result: VerificationResult, i: int)
    requires
        0 <= i < result.signatures@.len(),
        signature_term(result.signatures@[i]) is None,
    ensures
        verification_result_term(result) is None,
{
    let signatures = result.signatures@;
    assert(signatures.take(i + 1).drop_last() =~= signatures.take(i));
    assert(signatures.take(i + 1).last() == signatures[i]);
    lemma_signature_terms_prefix(signatures, i + 1);
}

/// Where a sequence of signatures becomes records, there is one record for
/// each signature, at the signature's place.
pub proof fn lemma_signature_terms_in_order(signatures: Seq<Signature>)
    requires
        signature_terms(signatures) is Some,
    ensures
        signature_terms(signatures)->Some_0.len() == signatures.len(),
        forall|i: int|
            0 <= i < signatures.len() ==> signature_term(#[trigger] signatures[i]) == Some(
                signature_terms(signatures)->Some_0[i],
            ),
    decreases signatures.len(),
{
    if signatures.len() > 0 {
        let front = signatures.drop_last();
        lemma_signature_terms_in_order(front);
        let terms = signature_terms(front)->Some_0;
        let term = signature_term(signatures.last())->Some_0;
        assert(signature_terms(signatures) == Some(terms.push(term)));
        assert forall|i: int| 0 <= i < signatures.len() implies signature_term(
            #[trigger] signatures[i],
        ) == Some(signature_terms(signatures)->Some_0[i]) by {
            if i < front.len() {
                assert(front[i] == signatures[i]);
            }
        }
    }
}

/// Writes a verification result as a host record, its signatures in the
/// engine's order. A file name or a signature that cannot be read fails the
/// whole transform: no partial record is handed out.
pub fn transform_verification_result(verification_result: &VerificationResult) -> (r: Result<
    Term,
    BridgeError,
>)
    ensures
        transformed(r, verification_result_term(*verification_result)),
{
    let filename = match string_or_null(&verification_result.filename) {
        Ok(term) => term,
        Err(_) => {
            return Err(BridgeError::DecodeFailure);
        },
    };
    let ghost all = verification_result.signatures@;
    let mut terms: Vec<Term> = Vec::new();
    let mut i: usize = 0;
    assert(all.take(0) =~= Seq::<Signature>::empty());
    assert(views(terms@) =~= Seq::<TermView>::empty());
    while i < verification_result.signatures.len()
        invariant
            0 <= i <= verification_result.signatures.len(),
            all == verification_result.signatures@,
            signature_terms(all.take(i as int)) == Some(views(terms@)),
        decreases verification_result.signatures.len() - i,
    {
        proof {
            assert(all.take(i + 1).drop_last() =~= all.take(i as int));
            assert(all.take(i + 1).last() == all[i as int]);
        }
        match transform_signature(&verification_result.signatures[i]) {
            Ok(term) => {
                put_item(&mut terms, term);
            },
            Err(_) => {
                proof {
                    lemma_signature_terms_prefix(all, i + 1);
                }
                return Err(BridgeError::DecodeFailure);
            },
        }
        i = i + 1;
    }
    assert(all.take(i as int) =~= all);
    let mut fields: Vec<(String, Term)> = Vec::new();
    assert(field_views(fields@) =~= Seq::empty());
    put_field(&mut fields, "filename", filename);
    put_field(&mut fields, "signatures", Term::list(terms));
    assert(field_views(fields@) =~= verification_result_term(
        *verification_result,
    )->Some_0->Record_1);
    Ok(Term::record("Elixir.ExGpgme.Results.VerificationResult", fields))
}

} // verus!
