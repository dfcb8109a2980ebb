use vstd::prelude::*;
use crate::error::BridgeError;
use crate::term::{is_tag, lemma_other_code, other_code, other_view, Term, TermView};

verus! {

/// The kind of engine that a context talks to.
#[derive(Clone, Copy, Debug, PartialEq, Eq, Structural)]
pub enum Protocol {
    OpenPgp,
    Cms,
    GpgConf,
    Assuan,
    G13,
    UiServer,
    Spawn,
    Default,
    Unknown,
    /// A protocol that has no name here, by the engine's code.
    Other(u32),
}

/// The host value that stands for a protocol.
pub open spec fn protocol_term(protocol: Protocol) -> TermView {
    match protocol {
        Protocol::OpenPgp => TermView::Atom("open_pgp"@),
        Protocol::Cms => TermView::Atom("cms"@),
        Protocol::GpgConf => TermView::Atom("gpg_conf"@),
        Protocol::Assuan => TermView::Atom("assuan"@),
        Protocol::G13 => TermView::Atom("g13"@),
        Protocol::UiServer => TermView::Atom("ui_server"@),
        Protocol::Spawn => TermView::Atom("spawn"@),
        Protocol::Default => TermView::Atom("default"@),
        Protocol::Unknown => TermView::Atom("unknown"@),
        Protocol::Other(code) => other_view(code),
    }
}

/// The protocol that an atom names, if any. The first name that fits wins.
pub open spec fn protocol_of_tag(name: Seq<char>) -> Option<Protocol> {
    if name == "open_pgp"@ {
        Some(Protocol::OpenPgp)
    } else if name == "cms"@ {
        Some(Protocol::Cms)
    } else if name == "gpg_conf"@ {
        Some(Protocol::GpgConf)
    } else if name == "assuan"@ {
        Some(Protocol::Assuan)
    } else if name == "g13"@ {
        Some(Protocol::G13)
    } else if name == "ui_server"@ {
        Some(Protocol::UiServer)
    } else if name == "spawn"@ {
        Some(Protocol::Spawn)
    } else if name == "default"@ {
        Some(Protocol::Default)
    } else if name == "unknown"@ {
        Some(Protocol::Unknown)
    } else {
        None
    }
}

/// The protocol that a host value stands for, if any: an atom of the
/// vocabulary, or the pair `(other, code)`.
pub open spec fn term_protocol(t: TermView) -> Option<Protocol> {
    match t {
        TermView::Atom(name) => protocol_of_tag(name),
        TermView::Tuple(_) => match other_code(t) {
            Some(code) => Some(Protocol::Other(code)),
            None => None,
        },
        _ => None,
    }
}

/// Reads a protocol from a host value. Whatever is not in the vocabulary is
/// a bad argument.
pub fn arg_to_protocol(arg: &Term) -> (r: Result<Protocol, BridgeError>)
    ensures
        r == (match term_protocol(arg@) {
            Some(protocol) => Ok::<Protocol, BridgeError>(protocol),
            None => Err::<Protocol, BridgeError>(BridgeError::BadArgument),
        }),
{
    match arg {
        Term::Atom(name) => {
            if is_tag(name, "open_pgp") {
                Ok(Protocol::OpenPgp)
            } else if is_tag(name, "cms") {
                Ok(Protocol::Cms)
            } else if is_tag(name, "gpg_conf") {
                Ok(Protocol::GpgConf)
            } else if is_tag(name, "assuan") {
                Ok(Protocol::Assuan)
            } else if is_tag(name, "g13") {
                Ok(Protocol::G13)
            } else if is_tag(name, "ui_server") {
                Ok(Protocol::UiServer)
            } else if is_tag(name, "spawn") {
                Ok(Protocol::Spawn)
            } else if is_tag(name, "default") {
                Ok(Protocol::Default)
            } else if is_tag(name, "unknown") {
                Ok(Protocol::Unknown)
            } else {
                Err(BridgeError::BadArgument)
            }
        },
        Term::Tuple(_) => match arg.decode_other() {
            Ok(code) => Ok(Protocol::Other(code)),
            Err(_) => Err(BridgeError::BadArgument),
        },
        _ => Err(BridgeError::BadArgument),
    }
}

/// Writes a protocol as a host value.
pub fn protocol_to_nif(protocol: Protocol) -> (r: Term)
    ensures
        r@ == protocol_term(protocol),
{
    match protocol {
        Protocol::OpenPgp => Term::atom("open_pgp"),
        Protocol::Cms => Term::atom("cms"),
        Protocol::GpgConf => Term::atom("gpg_conf"),
        Protocol::Assuan => Term::atom("assuan"),
        Protocol::G13 => Term::atom("g13"),
        Protocol::UiServer => Term::atom("ui_server"),
        Protocol::Spawn => Term::atom("spawn"),
        Protocol::Default => Term::atom("default"),
        Protocol::Unknown => Term::atom("unknown"),
        Protocol::Other(code) => Term::other(code),
    }
}

/// An atom that is none of the vocabulary stands for nothing: reading it
/// is a bad argument.
pub proof fn lemma_protocol_unknown_tag(name: Seq<char>)
    requires
        name != "open_pgp"@,
        name != "cms"@,
        name != "gpg_conf"@,
        name != "assuan"@,
        name != "g13"@,
        name != "ui_server"@,
        name != "spawn"@,
        name != "default"@,
        name != "unknown"@,
    ensures
        term_protocol(TermView::Atom(name)) is None,
{
}

/// Reading what was written gives the protocol back: every named protocol,
/// and `Other` with every code.
pub proof fn lemma_protocol_round_trip(protocol: Protocol)
    ensures
        term_protocol(protocol_term(protocol)) == Some(protocol),
{
    reveal_strlit("open_pgp");
    reveal_strlit("cms");
    reveal_strlit("gpg_conf");
    reveal_strlit("assuan");
    reveal_strlit("g13");
    reveal_strlit("ui_server");
    reveal_strlit("spawn");
    reveal_strlit("default");
    reveal_strlit("unknown");
    assert("open_pgp"@.len() == 8 && "open_pgp"@[0] == 'o');
    assert("cms"@.len() == 3 && "cms"@[0] == 'c');
    assert("gpg_conf"@.len() == 8 && "gpg_conf"@[0] == 'g');
    assert("assuan"@.len() == 6);
    assert("g13"@.len() == 3 && "g13"@[0] == 'g');
    assert("ui_server"@.len() == 9);
    assert("spawn"@.len() == 5);
    assert("default"@.len() == 7 && "default"@[0] == 'd');
    assert("unknown"@.len() == 7 && "unknown"@[0] == 'u');
    match protocol {
        Protocol::Other(code) => {
            lemma_other_code(code);
        },
        _ => {},
    }
}

} // verus!
