use vstd::prelude::*;
use crate::error::BridgeError;
use crate::term::{is_tag, lemma_other_code, other_code, other_view, Term, TermView};

verus! {

/// How the engine asks for a passphrase.
#[derive(Clone, Copy, Debug, PartialEq, Eq, Structural)]
pub enum PinentryMode {
    Default,
    Ask,
    Cancel,
    Error,
    Loopback,
    /// A mode that has no name here, by the engine's code.
    Other(u32),
}

/// The host value that stands for a pinentry mode.
pub open spec fn pinentry_mode_term(pinentry_mode: PinentryMode) -> TermView {
    match pinentry_mode {
        PinentryMode::Default => TermView::Atom("default"@),
        PinentryMode::Ask => TermView::Atom("ask"@),
        PinentryMode::Cancel => TermView::Atom("cancel"@),
        PinentryMode::Error => TermView::Atom("error"@),
        PinentryMode::Loopback => TermView::Atom("loopback"@),
        PinentryMode::Other(code) => other_view(code),
    }
}

/// The pinentry mode that an atom names, if any. The first name that fits wins.
pub open spec fn pinentry_mode_of_tag(name: Seq<char>) -> Option<PinentryMode> {
    if name == "default"@ {
        Some(PinentryMode::Default)
    } else if name == "ask"@ {
        Some(PinentryMode::Ask)
    } else if name == "cancel"@ {
        Some(PinentryMode::Cancel)
    } else if name == "error"@ {
        Some(PinentryMode::Error)
    } else if name == "loopback"@ {
        Some(PinentryMode::Loopback)
    } else {
        None
    }
}

/// The pinentry mode that a host value stands for, if any: an atom of the
/// vocabulary, or the pair `(other, code)`.
pub open spec fn term_pinentry_mode(t: TermView) -> Option<PinentryMode> {
    match t {
        TermView::Atom(name) => pinentry_mode_of_tag(name),
        TermView::Tuple(_) => match other_code(t) {
            Some(code) => Some(PinentryMode::Other(code)),
            None => None,
        },
        _ => None,
    }
}

/// Writes a pinentry mode as a host value.
pub fn pinentry_mode_to_term(pinentry_mode: PinentryMode) -> (r: Term)
    ensures
        r@ == pinentry_mode_term(pinentry_mode),
{
    match pinentry_mode {
        PinentryMode::Default => Term::atom("default"),
        PinentryMode::Ask => Term::atom("ask"),
        PinentryMode::Cancel => Term::atom("cancel"),
        PinentryMode::Error => Term::atom("error"),
        PinentryMode::Loopback => Term::atom("loopback"),
        PinentryMode::Other(code) => Term::other(code),
    }
}

/// Reads a pinentry mode from a host value. Whatever is not in the vocabulary
/// is a bad argument.
pub fn arg_to_pinentry_mode(arg: &Term) -> (r: Result<PinentryMode, BridgeError>)
    ensures
        r == (match term_pinentry_mode(arg@) {
            Some(pinentry_mode) => Ok::<PinentryMode, BridgeError>(pinentry_mode),
            None => Err::<PinentryMode, BridgeError>(BridgeError::BadArgument),
        }),
{
    match arg {
        Term::Atom(name) => {
            if is_tag(name, "default") {
                Ok(PinentryMode::Default)
            } else if is_tag(name, "ask") {
                Ok(PinentryMode::Ask)
            } else if is_tag(name, "cancel") {
                Ok(PinentryMode::Cancel)
            } else if is_tag(name, "error") {
                Ok(PinentryMode::Error)
            } else if is_tag(name, "loopback") {
                Ok(PinentryMode::Loopback)
            } else {
                Err(BridgeError::BadArgument)
            }
        },
        Term::Tuple(_) => match arg.decode_other() {
            Ok(code) => Ok(PinentryMode::Other(code)),
            Err(_) => Err(BridgeError::BadArgument),
        },
        _ => Err(BridgeError::BadArgument),
    }
}

/// An atom that is none of the vocabulary stands for nothing: reading it
/// is a bad argument.
pub proof fn lemma_pinentry_mode_unknown_tag(name: Seq<char>)
    requires
        name != "default"@,
        name != "ask"@,
        name != "cancel"@,
        name != "error"@,
        name != "loopback"@,
    ensures
        term_pinentry_mode(TermView::Atom(name)) is None,
{
}

/// Reading what was written gives the mode back: every named mode, and
/// `Other` with every code.
pub proof fn lemma_pinentry_mode_round_trip(pinentry_mode: PinentryMode)
    ensures
        term_pinentry_mode(pinentry_mode_term(pinentry_mode)) == Some(pinentry_mode),
{
    reveal_strlit("default");
    reveal_strlit("ask");
    reveal_strlit("cancel");
    reveal_strlit("error");
    reveal_strlit("loopback");
    assert("default"@.len() == 7);
    assert("ask"@.len() == 3);
    assert("cancel"@.len() == 6);
    assert("error"@.len() == 5);
    assert("loopback"@.len() == 8);
    match pinentry_mode {
        PinentryMode::Other(code) => {
            lemma_other_code(code);
        },
        _ => {},
    }
}

} // verus!
