use vstd::prelude::*;
use crate::error::BridgeError;
use crate::term::{is_tag, lemma_other_code, other_code, other_view, Term, TermView};

verus! {

/// The public-key algorithm of a key.
#[derive(Clone, Copy, Debug, PartialEq, Eq, Structural)]
pub enum KeyAlgorithm {
    Rsa,
    RsaEncrypt,
    RsaSign,
    ElgamalEncrypt,
    Dsa,
    Ecc,
    Elgamal,
    Ecdsa,
    Ecdh,
    Eddsa,
    /// An algorithm that has no name here, by the engine's code.
    Other(u32),
}

/// The host value that stands for a key algorithm.
pub open spec fn key_algorithm_term(algorithm: KeyAlgorithm) -> TermView {
    match algorithm {
        KeyAlgorithm::Rsa => TermView::Atom("rsa"@),
        KeyAlgorithm::RsaEncrypt => TermView::Atom("rsa_encrypt"@),
        KeyAlgorithm::RsaSign => TermView::Atom("rsa_sign"@),
        KeyAlgorithm::ElgamalEncrypt => TermView::Atom("elgamal_encrypt"@),
        KeyAlgorithm::Dsa => TermView::Atom("dsa"@),
        KeyAlgorithm::Ecc => TermView::Atom("ecc"@),
        KeyAlgorithm::Elgamal => TermView::Atom("elgamal"@),
        KeyAlgorithm::Ecdsa => TermView::Atom("ecdsa"@),
        KeyAlgorithm::Ecdh => TermView::Atom("ecdh"@),
        KeyAlgorithm::Eddsa => TermView::Atom("eddsa"@),
        KeyAlgorithm::Other(code) => other_view(code),
    }
}

/// The key algorithm that an atom names, if any. The first name that fits wins.
pub open spec fn key_algorithm_of_tag(name: Seq<char>) -> Option<KeyAlgorithm> {
    if name == "rsa"@ {
        Some(KeyAlgorithm::Rsa)
    } else if name == "rsa_encrypt"@ {
        Some(KeyAlgorithm::RsaEncrypt)
    } else if name == "rsa_sign"@ {
        Some(KeyAlgorithm::RsaSign)
    } else if name == "elgamal_encrypt"@ {
        Some(KeyAlgorithm::ElgamalEncrypt)
    } else if name == "dsa"@ {
        Some(KeyAlgorithm::Dsa)
    } else if name == "ecc"@ {
        Some(KeyAlgorithm::Ecc)
    } else if name == "elgamal"@ {
        Some(KeyAlgorithm::Elgamal)
    } else if name == "ecdsa"@ {
        Some(KeyAlgorithm::Ecdsa)
    } else if name == "ecdh"@ {
        Some(KeyAlgorithm::Ecdh)
    } else if name == "eddsa"@ {
        Some(KeyAlgorithm::Eddsa)
    } else {
        None
    }
}

/// The key algorithm that a host value stands for, if any: an atom of the
/// vocabulary, or the pair `(other, code)`.
pub open spec fn term_key_algorithm(t: TermView) -> Option<KeyAlgorithm> {
    match t {
        TermView::Atom(name) => key_algorithm_of_tag(name),
        TermView::Tuple(_) => match other_code(t) {
            Some(code) => Some(KeyAlgorithm::Other(code)),
            None => None,
        },
        _ => None,
    }
}

/// Writes a key algorithm as a host value.
pub fn transform_key_algorithm(algorithm: KeyAlgorithm) -> (r: Term)
    ensures
        r@ == key_algorithm_term(algorithm),
{
    match algorithm {
        KeyAlgorithm::Rsa => Term::atom("rsa"),
        KeyAlgorithm::RsaEncrypt => Term::atom("rsa_encrypt"),
        KeyAlgorithm::RsaSign => Term::atom("rsa_sign"),
        KeyAlgorithm::ElgamalEncrypt => Term::atom("elgamal_encrypt"),
        KeyAlgorithm::Dsa => Term::atom("dsa"),
        KeyAlgorithm::Ecc => Term::atom("ecc"),
        KeyAlgorithm::Elgamal => Term::atom("elgamal"),
        KeyAlgorithm::Ecdsa => Term::atom("ecdsa"),
        KeyAlgorithm::Ecdh => Term::atom("ecdh"),
        KeyAlgorithm::Eddsa => Term::atom("eddsa"),
        KeyAlgorithm::Other(code) => Term::other(code),
    }
}

/// Reads a key algorithm from a host value. Whatever is not in the vocabulary
/// is a bad argument.
pub fn arg_to_key_algorithm(arg: &Term) -> (r: Result<KeyAlgorithm, BridgeError>)
    ensures
        r == (match term_key_algorithm(arg@) {
            Some(algorithm) => Ok::<KeyAlgorithm, BridgeError>(algorithm),
            None => Err::<KeyAlgorithm, BridgeError>(BridgeError::BadArgument),
        }),
{
    match arg {
        Term::Atom(name) => {
            if is_tag(name, "rsa") {
                Ok(KeyAlgorithm::Rsa)
            } else if is_tag(name, "rsa_encrypt") {
                Ok(KeyAlgorithm::RsaEncrypt)
            } else if is_tag(name, "rsa_sign") {
                Ok(KeyAlgorithm::RsaSign)
            } else if is_tag(name, "elgamal_encrypt") {
                Ok(KeyAlgorithm::ElgamalEncrypt)
            } else if is_tag(name, "dsa") {
                Ok(KeyAlgorithm::Dsa)
            } else if is_tag(name, "ecc") {
                Ok(KeyAlgorithm::Ecc)
            } else if is_tag(name, "elgamal") {
                Ok(KeyAlgorithm::Elgamal)
            } else if is_tag(name, "ecdsa") {
                Ok(KeyAlgorithm::Ecdsa)
            } else if is_tag(name, "ecdh") {
                Ok(KeyAlgorithm::Ecdh)
            } else if is_tag(name, "eddsa") {
                Ok(KeyAlgorithm::Eddsa)
            } else {
                Err(BridgeError::BadArgument)
            }
        },
        Term::Tuple(_) => match arg.decode_other() {
            Ok(code) => Ok(KeyAlgorithm::Other(code)),
            Err(_) => Err(BridgeError::BadArgument),
        },
        _ => Err(BridgeError::BadArgument),
    }
}

/// An atom that is none of the vocabulary stands for nothing: reading it
/// is a bad argument.
pub proof fn lemma_key_algorithm_unknown_tag(name: Seq<char>)
    requires
        name != "rsa"@,
        name != "rsa_encrypt"@,
        name != "rsa_sign"@,
        name != "elgamal_encrypt"@,
        name != "dsa"@,
        name != "ecc"@,
        name != "elgamal"@,
        name != "ecdsa"@,
        name != "ecdh"@,
        name != "eddsa"@,
    ensures
        term_key_algorithm(TermView::Atom(name)) is None,
{
}

/// Reading what was written gives the algorithm back: every named algorithm,
/// and `Other` with every code.
pub proof fn lemma_key_algorithm_round_trip(algorithm: KeyAlgorithm)
    ensures
        term_key_algorithm(key_algorithm_term(algorithm)) == Some(algorithm),
{
    reveal_strlit("rsa");
    reveal_strlit("rsa_encrypt");
    reveal_strlit("rsa_sign");
    reveal_strlit("elgamal_encrypt");
    reveal_strlit("dsa");
    reveal_strlit("ecc");
    reveal_strlit("elgamal");
    reveal_strlit("ecdsa");
    reveal_strlit("ecdh");
    reveal_strlit("eddsa");
    assert("rsa"@.len() == 3 && "rsa"@[0] == 'r');
    assert("rsa_encrypt"@.len() == 11);
    assert("rsa_sign"@.len() == 8);
    assert("elgamal_encrypt"@.len() == 15);
    assert("dsa"@.len() == 3 && "dsa"@[0] == 'd');
    assert("ecc"@.len() == 3 && "ecc"@[0] == 'e');
    assert("elgamal"@.len() == 7);
    assert("ecdsa"@.len() == 5 && "ecdsa"@[1] == 'c');
    assert("ecdh"@.len() == 4);
    assert("eddsa"@.len() == 5 && "eddsa"@[1] == 'd');
    match algorithm {
        KeyAlgorithm::Other(code) => {
            lemma_other_code(code);
        },
        _ => {},
    }
}

} // verus!
