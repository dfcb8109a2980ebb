use vstd::prelude::*;
use crate::error::BridgeError;
use crate::term::{is_tag, lemma_other_code, other_code, other_view, Term, TermView};

verus! {

/// The form in which a signature is made.
#[derive(Clone, Copy, Debug, PartialEq, Eq, Structural)]
pub enum SignMode {
    Normal,
    Detached,
    Clear,
    /// A mode that has no name here, by the engine's code.
    Other(u32),
}

/// The host value that stands for a sign mode.
pub open spec fn sign_mode_term(mode: SignMode) -> TermView {
    match mode {
        SignMode::Normal => TermView::Atom("normal"@),
        SignMode::Detached => TermView::Atom("detached"@),
        SignMode::Clear => TermView::Atom("clear"@),
        SignMode::Other(code) => other_view(code),
    }
}

/// The sign mode that an atom names, if any. The first name that fits wins.
pub open spec fn sign_mode_of_tag(name: Seq<char>) -> Option<SignMode> {
    if name == "normal"@ {
        Some(SignMode::Normal)
    } else if name == "detached"@ {
        Some(SignMode::Detached)
    } else if name == "clear"@ {
        Some(SignMode::Clear)
    } else {
        None
    }
}

/// The sign mode that a host value stands for, if any: an atom of the
/// vocabulary, or the pair `(other, code)`.
pub open spec fn term_sign_mode(t: TermView) -> Option<SignMode> {
    match t {
        TermView::Atom(name) => sign_mode_of_tag(name),
        TermView::Tuple(_) => match other_code(t) {
            Some(code) => Some(SignMode::Other(code)),
            None => None,
        },
        _ => None,
    }
}

/// Reads a sign mode from a host value. Whatever is not in the vocabulary is a
/// bad argument.
pub fn arg_to_sign_mode(arg: &Term) -> (r: Result<SignMode, BridgeError>)
    ensures
        r == (match term_sign_mode(arg@) {
            Some(mode) => Ok::<SignMode, BridgeError>(mode),
            None => Err::<SignMode, BridgeError>(BridgeError::BadArgument),
        }),
{
    match arg {
        Term::Atom(name) => {
            if is_tag(name, "normal") {
                Ok(SignMode::Normal)
            } else if is_tag(name, "detached") {
                Ok(SignMode::Detached)
            } else if is_tag(name, "clear") {
                Ok(SignMode::Clear)
            } else {
                Err(BridgeError::BadArgument)
            }
        },
        Term::Tuple(_) => match arg.decode_other() {
            Ok(code) => Ok(SignMode::Other(code)),
            Err(_) => Err(BridgeError::BadArgument),
        },
        _ => Err(BridgeError::BadArgument),
    }
}

/// Writes a sign mode as a host value.
pub fn sign_mode_to_term(mode: SignMode) -> (r: Term)
    ensures
        r@ == sign_mode_term(mode),
{
    match mode {
        SignMode::Normal => Term::atom("normal"),
        SignMode::Detached => Term::atom("detached"),
        SignMode::Clear => Term::atom("clear"),
        SignMode::Other(code) => Term::other(code),
    }
}

/// An atom that is none of the vocabulary stands for nothing: reading it
/// is a bad argument.
pub proof fn lemma_sign_mode_unknown_tag(name: Seq<char>)
    requires
        name != "normal"@,
        name != "detached"@,
        name != "clear"@,
    ensures
        term_sign_mode(TermView::Atom(name)) is None,
{
}

/// Reading what was written gives the mode back: every named mode, and
/// `Other` with every code.
pub proof fn lemma_sign_mode_round_trip(mode: SignMode)
    ensures
        term_sign_mode(sign_mode_term(mode)) == Some(mode),
{
    reveal_strlit("normal");
    reveal_strlit("detached");
    reveal_strlit("clear");
    assert("normal"@.len() == 6);
    assert("detached"@.len() == 8);
    assert("clear"@.len() == 5);
    match mode {
        SignMode::Other(code) => {
            lemma_other_code(code);
        },
        _ => {},
    }
}

} // verus!
