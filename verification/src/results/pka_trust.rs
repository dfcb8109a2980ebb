use vstd::prelude::*;
use crate::error::BridgeError;
use crate::term::{is_tag, lemma_other_code, other_code, other_view, Term, TermView};

verus! {

/// What a lookup of the signer's address in the DNS said of the key.
#[derive(Clone, Copy, Debug, PartialEq, Eq, Structural)]
pub enum PkaTrust {
    Unknown,
    Bad,
    Okay,
    /// A state that has no name here, by the engine's code.
    Other(u32),
}

/// The host value that stands for a PKA trust state.
pub open spec fn pka_trust_term(trust: PkaTrust) -> TermView {
    match trust {
        PkaTrust::Unknown => TermView::Atom("unknown"@),
        PkaTrust::Bad => TermView::Atom("bad"@),
        PkaTrust::Okay => TermView::Atom("okay"@),
        PkaTrust::Other(code) => other_view(code),
    }
}

/// The PKA trust state that an atom names, if any. The first name that fits wins.
pub open spec fn pka_trust_of_tag(name: Seq<char>) -> Option<PkaTrust> {
    if name == "unknown"@ {
        Some(PkaTrust::Unknown)
    } else if name == "bad"@ {
        Some(PkaTrust::Bad)
    } else if name == "okay"@ {
        Some(PkaTrust::Okay)
    } else {
        None
    }
}

/// The PKA trust state that a host value stands for, if any: an atom of the
/// vocabulary, or the pair `(other, code)`.
pub open spec fn term_pka_trust(t: TermView) -> Option<PkaTrust> {
    match t {
        TermView::Atom(name) => pka_trust_of_tag(name),
        TermView::Tuple(_) => match other_code(t) {
            Some(code) => Some(PkaTrust::Other(code)),
            None => None,
        },
        _ => None,
    }
}

/// Writes a PKA trust state as a host value.
pub fn transform_pka_trust(trust: PkaTrust) -> (r: Term)
    ensures
        r@ == pka_trust_term(trust),
{
    match trust {
        PkaTrust::Unknown => Term::atom("unknown"),
        PkaTrust::Bad => Term::atom("bad"),
        PkaTrust::Okay => Term::atom("okay"),
        PkaTrust::Other(code) => Term::other(code),
    }
}

/// Reads a PKA trust state from a host value. Whatever is not in the
/// vocabulary is a bad argument.
pub fn arg_to_pka_trust(arg: &Term) -> (r: Result<PkaTrust, BridgeError>)
    ensures
        r == (match term_pka_trust(arg@) {
            Some(trust) => Ok::<PkaTrust, BridgeError>(trust),
            None => Err::<PkaTrust, BridgeError>(BridgeError::BadArgument),
        }),
{
    match arg {
        Term::Atom(name) => {
            if is_tag(name, "unknown") {
                Ok(PkaTrust::Unknown)
            } else if is_tag(name, "bad") {
                Ok(PkaTrust::Bad)
            } else if is_tag(name, "okay") {
                Ok(PkaTrust::Okay)
            } else {
                Err(BridgeError::BadArgument)
            }
        },
        Term::Tuple(_) => match arg.decode_other() {
            Ok(code) => Ok(PkaTrust::Other(code)),
            Err(_) => Err(BridgeError::BadArgument),
        },
        _ => Err(BridgeError::BadArgument),
    }
}

/// An atom that is none of the vocabulary stands for nothing: reading it
/// is a bad argument.
pub proof fn lemma_pka_trust_unknown_tag(name: Seq<char>)
    requires
        name != "unknown"@,
        name != "bad"@,
        name != "okay"@,
    ensures
        term_pka_trust(TermView::Atom(name)) is None,
{
}

/// Reading what was written gives the state back: every named state, and
/// `Other` with every code.
pub proof fn lemma_pka_trust_round_trip(trust: PkaTrust)
    ensures
        term_pka_trust(pka_trust_term(trust)) == Some(trust),
{
    reveal_strlit("unknown");
    reveal_strlit("bad");
    reveal_strlit("okay");
    assert("unknown"@.len() == 7);
    assert("bad"@.len() == 3);
    assert("okay"@.len() == 4);
    match trust {
        PkaTrust::Other(code) => {
            lemma_other_code(code);
        },
        _ => {},
    }
}

} // verus!
