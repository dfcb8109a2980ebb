use vstd::prelude::*;
use crate::error::BridgeError;
use crate::term::{is_tag, Term, TermView};

verus! {

/// How far the engine trusts that a key belongs to its owner.
#[derive(Clone, Copy, Debug, PartialEq, Eq, Structural)]
pub enum Validity {
    Unknown,
    Undefined,
    Never,
    Marginal,
    Full,
    Ultimate,
}

/// The host value that stands for a validity.
pub open spec fn validity_term(validity: Validity) -> TermView {
    match validity {
        Validity::Unknown => TermView::Atom("unknown"@),
        Validity::Undefined => TermView::Atom("undefined"@),
        Validity::Never => TermView::Atom("never"@),
        Validity::Marginal => TermView::Atom("marginal"@),
        Validity::Full => TermView::Atom("full"@),
        Validity::Ultimate => TermView::Atom("ultimate"@),
    }
}

/// The validity that an atom names, if any. The first name that fits wins.
pub open spec fn validity_of_tag(name: Seq<char>) -> Option<Validity> {
    if name == "unknown"@ {
        Some(Validity::Unknown)
    } else if name == "undefined"@ {
        Some(Validity::Undefined)
    } else if name == "never"@ {
        Some(Validity::Never)
    } else if name == "marginal"@ {
        Some(Validity::Marginal)
    } else if name == "full"@ {
        Some(Validity::Full)
    } else if name == "ultimate"@ {
        Some(Validity::Ultimate)
    } else {
        None
    }
}

/// The validity that a host value stands for, if any: an atom of the
/// vocabulary.
pub open spec fn term_validity(t: TermView) -> Option<Validity> {
    match t {
        TermView::Atom(name) => validity_of_tag(name),
        _ => None,
    }
}

/// Writes a validity as a host value.
pub fn transform_validity(validity: Validity) -> (r: Term)
    ensures
        r@ == validity_term(validity),
{
    match validity {
        Validity::Unknown => Term::atom("unknown"),
        Validity::Undefined => Term::atom("undefined"),
        Validity::Never => Term::atom("never"),
        Validity::Marginal => Term::atom("marginal"),
        Validity::Full => Term::atom("full"),
        Validity::Ultimate => Term::atom("ultimate"),
    }
}

/// Reads a validity from a host value. Whatever is not in the vocabulary is a
/// bad argument.
pub fn arg_to_validity(arg: &Term) -> (r: Result<Validity, BridgeError>)
    ensures
        r == (match term_validity(arg@) {
            Some(validity) => Ok::<Validity, BridgeError>(validity),
            None => Err::<Validity, BridgeError>(BridgeError::BadArgument),
        }),
{
    match arg {
        Term::Atom(name) => {
            if is_tag(name, "unknown") {
                Ok(Validity::Unknown)
            } else if is_tag(name, "undefined") {
                Ok(Validity::Undefined)
            } else if is_tag(name, "never") {
                Ok(Validity::Never)
            } else if is_tag(name, "marginal") {
                Ok(Validity::Marginal)
            } else if is_tag(name, "full") {
                Ok(Validity::Full)
            } else if is_tag(name, "ultimate") {
                Ok(Validity::Ultimate)
            } else {
                Err(BridgeError::BadArgument)
            }
        },
        _ => Err(BridgeError::BadArgument),
    }
}

/// An atom that is none of the vocabulary stands for nothing: reading it
/// is a bad argument.
pub proof fn lemma_validity_unknown_tag(name: Seq<char>)
    requires
        name != "unknown"@,
        name != "undefined"@,
        name != "never"@,
        name != "marginal"@,
        name != "full"@,
        name != "ultimate"@,
    ensures
        term_validity(TermView::Atom(name)) is None,
{
}

/// Reading what was written gives the validity back.
pub proof fn lemma_validity_round_trip(validity: Validity)
    ensures
        term_validity(validity_term(validity)) == Some(validity),
{
    reveal_strlit("unknown");
    reveal_strlit("undefined");
    reveal_strlit("never");
    reveal_strlit("marginal");
    reveal_strlit("full");
    reveal_strlit("ultimate");
    assert("unknown"@.len() == 7);
    assert("undefined"@.len() == 9);
    assert("never"@.len() == 5);
    assert("marginal"@.len() == 8 && "marginal"@[0] == 'm');
    assert("full"@.len() == 4);
    assert("ultimate"@.len() == 8 && "ultimate"@[0] == 'u');
}

} // verus!
