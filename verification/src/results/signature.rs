use vstd::prelude::*;
use crate::error::BridgeError;
use crate::hash_algorithm::{hash_algorithm_term, transform_hash_algorithm, HashAlgorithm};
use crate::helpers::{readable, string_or_null, text_or_nil, transformed};
use crate::key_algorithm::{key_algorithm_term, transform_key_algorithm, KeyAlgorithm};
use crate::keys::{wrap_key, Key, KeyResource};
use crate::notation::signature_notation::{
    notation_term,
    transform_signature_notation,
    SignatureNotation,
};
use crate::results::pka_trust::{pka_trust_term, transform_pka_trust, PkaTrust};
use crate::term::{bool_view, field_views, nil_view, put_field, put_item, views, Term, TermView};
use crate::validity::{transform_validity, validity_term, Validity};

verus! {

/// One signature of a verified message, as the engine reports it. Text
/// fields are the engine's bytes, absent where it has none; times are
/// seconds since the epoch.
#[derive(Debug, PartialEq, Eq)]
pub struct Signature {
    pub fingerprint: Option<Vec<u8>>,
    pub is_valid: bool,
    pub creation_time: Option<u64>,
    pub expiration_time: Option<u64>,
    pub never_expires: bool,
    pub is_wrong_key_usage: bool,
    pub verified_by_chain: bool,
    pub pka_trust: PkaTrust,
    pub pka_address: Option<Vec<u8>>,
    pub validity: Validity,
    pub nonvalidity_reason: Option<String>,
    pub key_algorithm: KeyAlgorithm,
    pub hash_algorithm: HashAlgorithm,
    pub policy_url: Option<Vec<u8>>,
    pub notations: Vec<SignatureNotation>,
    pub key: Option<Key>,
}

/// The host value of a signature's status.
pub open spec fn status_view(is_valid: bool) -> TermView {
    if is_valid {
        TermView::Atom("valid"@)
    } else {
        TermView::Atom("invalid"@)
    }
}

/// The host value of a time that may be absent.
pub open spec fn time_view(time: Option<u64>) -> TermView {
    match time {
        Some(seconds) => TermView::Integer(seconds as i128),
        None => nil_view(),
    }
}

/// The host value of a reason that may be absent.
pub open spec fn reason_view(reason: Option<String>) -> TermView {
    match reason {
        Some(description) => TermView::Text(description@),
        None => nil_view(),
    }
}

/// The host value of a key that may be absent: a handle to it.
pub open spec fn key_view(key: Option<Key>) -> TermView {
    match key {
        Some(key) => TermView::Key(KeyResource { key }),
        None => nil_view(),
    }
}

/// The records that a sequence of notations becomes, in the same order.
/// There is none if any of them cannot be read.
pub open spec fn notation_terms(notations: Seq<SignatureNotation>) -> Option<Seq<TermView>>
    decreases notations.len(),
{
    if notations.len() == 0 {
        Some(Seq::empty())
    } else {
        match (notation_terms(notations.drop_last()), notation_term(notations.last())) {
            (Some(terms), Some(term)) => Some(terms.push(term)),
            _ => None,
        }
    }
}

/// A sequence of notations with a beginning that cannot be read cannot be
/// read itself.
pub proof fn lemma_notation_terms_prefix(notations: Seq<SignatureNotation>, n: int)
    requires
        0 <= n <= notations.len(),
        notation_terms(notations.take(n)) is None,
    ensures
        notation_terms(notations) is None,
    decreases notations.len() - n,
{
    if n == notations.len() {
        assert(notations.take(n) =~= notations);
    } else {
        assert(notations.take(n + 1).drop_last() =~= notations.take(n));
        lemma_notation_terms_prefix(notations, n + 1);
    }
}

/// The record that a signature becomes, if its fingerprint, its PKA
/// address, its policy URL and all its notations can be read.
pub open spec fn signature_term(signature: Signature) -> Option<TermView> {
    if readable(signature.fingerprint) && readable(signature.pka_address) && readable(
        signature.policy_url,
    ) {
        match notation_terms(signature.notations@) {
            Some(notations) => Some(
                TermView::Record(
                    "Elixir.ExGpgme.Results.Signature"@,
                    seq![
                        ("status"@, status_view(signature.is_valid)),
                        ("fingerprint"@, text_or_nil(signature.fingerprint)),
                        ("creation_time"@, time_view(signature.creation_time)),
                        ("expiration_time"@, time_view(signature.expiration_time)),
                        ("never_expires"@, bool_view(signature.never_expires)),
                        ("is_wrong_key_usage"@, bool_view(signature.is_wrong_key_usage)),
                        ("verified_by_chain"@, bool_view(signature.verified_by_chain)),
                        ("pka_trust"@, pka_trust_term(signature.pka_trust)),
                        ("pka_address"@, text_or_nil(signature.pka_address)),
                        ("validity"@, validity_term(signature.validity)),
                        ("nonvalidity_reason"@, reason_view(signature.nonvalidity_reason)),
                        ("key_algorithm"@, key_algorithm_term(signature.key_algorithm)),
                        ("hash_algorithm"@, hash_algorithm_term(signature.hash_algorithm)),
                        ("policy_url"@, text_or_nil(signature.policy_url)),
                        ("notations"@, TermView::List(notations)),
                        ("key"@, key_view(signature.key)),
                    ],
                ),
            ),
            None => None,
        }
    } else {
        None
    }
}

/// Writes a time that may be absent as a host value.
pub fn time_or_nil(time: Option<u64>) -> (r: Term)
    ensures
        r@ == time_view(time),
{
    match time {
        Some(seconds) => Term::integer(seconds as i128),
        None => Term::nil(),
    }
}

/// Writes the notations of a signature as host records, in the engine's
/// order. One notation that cannot be read fails the whole transform.
pub fn transform_notations(notations: &Vec<SignatureNotation>) -> (r: Result<
    Vec<Term>,
    BridgeError,
>)
    ensures
        match notation_terms(notations@) {
            Some(terms) => r is Ok && views(r->Ok_0@) == terms,
            None => r == Err::<Vec<Term>, BridgeError>(BridgeError::DecodeFailure),
        },
{
    let ghost all = notations@;
    let mut terms: Vec<Term> = Vec::new();
    let mut i: usize = 0;
    assert(all.take(0) =~= Seq::<SignatureNotation>::empty());
    assert(views(terms@) =~= Seq::<TermView>::empty());
    while i < notations.len()
        invariant
            0 <= i <= notations.len(),
            all == notations@,
            notation_terms(all.take(i as int)) == Some(views(terms@)),
        decreases notations.len() - i,
    {
        proof {
            assert(all.take(i + 1).drop_last() =~= all.take(i as int));
            assert(all.take(i + 1).last() == all[i as int]);
        }
        match transform_signature_notation(&notations[i]) {
            Ok(term) => {
                put_item(&mut terms, term);
            },
            Err(_) => {
                proof {
                    lemma_notation_terms_prefix(all, i + 1);
                }
                return Err(BridgeError::DecodeFailure);
            },
        }
        i = i + 1;
    }
    assert(all.take(i as int) =~= all);
    Ok(terms)
}

/// Writes a signature as a host record. Fails as a whole, with nothing
/// written, if any text of it or of its notations is not valid UTF-8.
pub fn transform_signature(signature: &Signature) -> (r: Result<Term, BridgeError>)
    ensures
        transformed(r, signature_term(*signature)),
{
    let status = if signature.is_valid {
        Term::atom("valid")
    } else {
        Term::atom("invalid")
    };
    let fingerprint = match string_or_null(&signature.fingerprint) {
        Ok(term) => term,
        Err(_) => {
            return Err(BridgeError::DecodeFailure);
        },
    };
    let pka_address = match string_or_null(&signature.pka_address) {
        Ok(term) => term,
        Err(_) => {
            return Err(BridgeError::DecodeFailure);
        },
    };
    let nonvalidity_reason = match &signature.nonvalidity_reason {
        Some(description) => Term::text(description.clone()),
        None => Term::nil(),
    };
    let policy_url = match string_or_null(&signature.policy_url) {
        Ok(term) => term,
        Err(_) => {
            return Err(BridgeError::DecodeFailure);
        },
    };
    let key = match signature.key {
        Some(key) => Term::Key(wrap_key(key)),
        None => Term::nil(),
    };
    let notations = match transform_notations(&signature.notations) {
        Ok(terms) => Term::list(terms),
        Err(_) => {
            return Err(BridgeError::DecodeFailure);
        },
    };
    let mut fields: Vec<(String, Term)> = Vec::new();
    assert(field_views(fields@) =~= Seq::empty());
    put_field(&mut fields, "status", status);
    put_field(&mut fields, "fingerprint", fingerprint);
    put_field(&mut fields, "creation_time", time_or_nil(signature.creation_time));
    put_field(&mut fields, "expiration_time", time_or_nil(signature.expiration_time));
    put_field(&mut fields, "never_expires", Term::boolean(signature.never_expires));
    put_field(&mut fields, "is_wrong_key_usage", Term::boolean(signature.is_wrong_key_usage));
    put_field(&mut fields, "verified_by_chain", Term::boolean(signature.verified_by_chain));
    put_field(&mut fields, "pka_trust", transform_pka_trust(signature.pka_trust));
    put_field(&mut fields, "pka_address", pka_address);
    put_field(&mut fields, "validity", transform_validity(signature.validity));
    put_field(&mut fields, "nonvalidity_reason", nonvalidity_reason);
    put_field(&mut fields, "key_algorithm", transform_key_algorithm(signature.key_algorithm));
    put_field(&mut fields, "hash_algorithm", transform_hash_algorithm(signature.hash_algorithm));
    put_field(&mut fields, "policy_url", policy_url);
    put_field(&mut fields, "notations", notations);
    put_field(&mut fields, "key", key);
    assert(field_views(fields@) =~= signature_term(*signature)->Some_0->Record_1);
    Ok(Term::record("Elixir.ExGpgme.Results.Signature", fields))
}

} // verus!
