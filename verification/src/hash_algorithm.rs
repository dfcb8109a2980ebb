use vstd::prelude::*;
use crate::error::BridgeError;
use crate::term::{is_tag, lemma_other_code, other_code, other_view, Term, TermView};

verus! {

/// The digest algorithm of a signature.
#[derive(Clone, Copy, Debug, PartialEq, Eq, Structural)]
pub enum HashAlgorithm {
    NoHash,
    Md2,
    Md4,
    Md5,
    Sha1,
    Sha224,
    Sha256,
    Sha384,
    Sha512,
    RipeMd160,
    Tiger,
    Haval,
    Crc32,
    Crc32Rfc1510,
    Crc24Rfc2440,
    /// An algorithm that has no name here, by the engine's code.
    Other(u32),
}

/// The host value that stands for a hash algorithm.
pub open spec fn hash_algorithm_term(algorithm: HashAlgorithm) -> TermView {
    match algorithm {
        HashAlgorithm::NoHash => TermView::Atom("none"@),
        HashAlgorithm::Md2 => TermView::Atom("md2"@),
        HashAlgorithm::Md4 => TermView::Atom("md4"@),
        HashAlgorithm::Md5 => TermView::Atom("md5"@),
        HashAlgorithm::Sha1 => TermView::Atom("sha1"@),
        HashAlgorithm::Sha224 => TermView::Atom("sha224"@),
        HashAlgorithm::Sha256 => TermView::Atom("sha256"@),
        HashAlgorithm::Sha384 => TermView::Atom("sha384"@),
        HashAlgorithm::Sha512 => TermView::Atom("sha512"@),
        HashAlgorithm::RipeMd160 => TermView::Atom("ripe_md160"@),
        HashAlgorithm::Tiger => TermView::Atom("tiger"@),
        HashAlgorithm::Haval => TermView::Atom("haval"@),
        HashAlgorithm::Crc32 => TermView::Atom("crc32"@),
        HashAlgorithm::Crc32Rfc1510 => TermView::Atom("crc32_rfc1510"@),
        HashAlgorithm::Crc24Rfc2440 => TermView::Atom("crc24_rfc2440"@),
        HashAlgorithm::Other(code) => other_view(code),
    }
}

/// The hash algorithm that an atom names, if any. The first name that fits wins.
pub open spec fn hash_algorithm_of_tag(name: Seq<char>) -> Option<HashAlgorithm> {
    if name == "none"@ {
        Some(HashAlgorithm::NoHash)
    } else if name == "md2"@ {
        Some(HashAlgorithm::Md2)
    } else if name == "md4"@ {
        Some(HashAlgorithm::Md4)
    } else if name == "md5"@ {
        Some(HashAlgorithm::Md5)
    } else if name == "sha1"@ {
        Some(HashAlgorithm::Sha1)
    } else if name == "sha224"@ {
        Some(HashAlgorithm::Sha224)
    } else if name == "sha256"@ {
        Some(HashAlgorithm::Sha256)
    } else if name == "sha384"@ {
        Some(HashAlgorithm::Sha384)
    } else if name == "sha512"@ {
        Some(HashAlgorithm::Sha512)
    } else if name == "ripe_md160"@ {
        Some(HashAlgorithm::RipeMd160)
    } else if name == "tiger"@ {
        Some(HashAlgorithm::Tiger)
    } else if name == "haval"@ {
        Some(HashAlgorithm::Haval)
    } else if name == "crc32"@ {
        Some(HashAlgorithm::Crc32)
    } else if name == "crc32_rfc1510"@ {
        Some(HashAlgorithm::Crc32Rfc1510)
    } else if name == "crc24_rfc2440"@ {
        Some(HashAlgorithm::Crc24Rfc2440)
    } else {
        None
    }
}

/// The hash algorithm that a host value stands for, if any: an atom of the
/// vocabulary, or the pair `(other, code)`.
pub open spec fn term_hash_algorithm(t: TermView) -> Option<HashAlgorithm> {
    match t {
        TermView::Atom(name) => hash_algorithm_of_tag(name),
        TermView::Tuple(_) => match other_code(t) {
            Some(code) => Some(HashAlgorithm::Other(code)),
            None => None,
        },
        _ => None,
    }
}

/// Writes a hash algorithm as a host value.
pub fn transform_hash_algorithm(algorithm: HashAlgorithm) -> (r: Term)
    ensures
        r@ == hash_algorithm_term(algorithm),
{
    match algorithm {
        HashAlgorithm::NoHash => Term::atom("none"),
        HashAlgorithm::Md2 => Term::atom("md2"),
        HashAlgorithm::Md4 => Term::atom("md4"),
        HashAlgorithm::Md5 => Term::atom("md5"),
        HashAlgorithm::Sha1 => Term::atom("sha1"),
        HashAlgorithm::Sha224 => Term::atom("sha224"),
        HashAlgorithm::Sha256 => Term::atom("sha256"),
        HashAlgorithm::Sha384 => Term::atom("sha384"),
        HashAlgorithm::Sha512 => Term::atom("sha512"),
        HashAlgorithm::RipeMd160 => Term::atom("ripe_md160"),
        HashAlgorithm::Tiger => Term::atom("tiger"),
        HashAlgorithm::Haval => Term::atom("haval"),
        HashAlgorithm::Crc32 => Term::atom("crc32"),
        HashAlgorithm::Crc32Rfc1510 => Term::atom("crc32_rfc1510"),
        HashAlgorithm::Crc24Rfc2440 => Term::atom("crc24_rfc2440"),
        HashAlgorithm::Other(code) => Term::other(code),
    }
}

/// Reads a hash algorithm from a host value. Whatever is not in the vocabulary
/// is a bad argument.
pub fn arg_to_hash_algorithm(arg: &Term) -> (r: Result<HashAlgorithm, BridgeError>)
    ensures
        r == (match term_hash_algorithm(arg@) {
            Some(algorithm) => Ok::<HashAlgorithm, BridgeError>(algorithm),
            None => Err::<HashAlgorithm, BridgeError>(BridgeError::BadArgument),
        }),
{
    match arg {
        Term::Atom(name) => {
            if is_tag(name, "none") {
                Ok(HashAlgorithm::NoHash)
            } else if is_tag(name, "md2") {
                Ok(HashAlgorithm::Md2)
            } else if is_tag(name, "md4") {
                Ok(HashAlgorithm::Md4)
            } else if is_tag(name, "md5") {
                Ok(HashAlgorithm::Md5)
            } else if is_tag(name, "sha1") {
                Ok(HashAlgorithm::Sha1)
            } else if is_tag(name, "sha224") {
                Ok(HashAlgorithm::Sha224)
            } else if is_tag(name, "sha256") {
                Ok(HashAlgorithm::Sha256)
            } else if is_tag(name, "sha384") {
                Ok(HashAlgorithm::Sha384)
            } else if is_tag(name, "sha512") {
                Ok(HashAlgorithm::Sha512)
            } else if is_tag(name, "ripe_md160") {
                Ok(HashAlgorithm::RipeMd160)
            } else if is_tag(name, "tiger") {
                Ok(HashAlgorithm::Tiger)
            } else if is_tag(name, "haval") {
                Ok(HashAlgorithm::Haval)
            } else if is_tag(name, "crc32") {
                Ok(HashAlgorithm::Crc32)
            } else if is_tag(name, "crc32_rfc1510") {
                Ok(HashAlgorithm::Crc32Rfc1510)
            } else if is_tag(name, "crc24_rfc2440") {
                Ok(HashAlgorithm::Crc24Rfc2440)
            } else {
                Err(BridgeError::BadArgument)
            }
        },
        Term::Tuple(_) => match arg.decode_other() {
            Ok(code) => Ok(HashAlgorithm::Other(code)),
            Err(_) => Err(BridgeError::BadArgument),
        },
        _ => Err(BridgeError::BadArgument),
    }
}

/// An atom that is none of the vocabulary stands for nothing: reading it
/// is a bad argument.
pub proof fn lemma_hash_algorithm_unknown_tag(name: Seq<char>)
    requires
        name != "none"@,
        name != "md2"@,
        name != "md4"@,
        name != "md5"@,
        name != "sha1"@,
        name != "sha224"@,
        name != "sha256"@,
        name != "sha384"@,
        name != "sha512"@,
        name != "ripe_md160"@,
        name != "tiger"@,
        name != "haval"@,
        name != "crc32"@,
        name != "crc32_rfc1510"@,
        name != "crc24_rfc2440"@,
    ensures
        term_hash_algorithm(TermView::Atom(name)) is None,
{
}

/// Reading what was written gives the algorithm back: every named algorithm,
/// and `Other` with every code.
pub proof fn lemma_hash_algorithm_round_trip(algorithm: HashAlgorithm)
    ensures
        term_hash_algorithm(hash_algorithm_term(algorithm)) == Some(algorithm),
{
    reveal_strlit("none");
    reveal_strlit("md2");
    reveal_strlit("md4");
    reveal_strlit("md5");
    reveal_strlit("sha1");
    reveal_strlit("sha224");
    reveal_strlit("sha256");
    reveal_strlit("sha384");
    reveal_strlit("sha512");
    reveal_strlit("ripe_md160");
    reveal_strlit("tiger");
    reveal_strlit("haval");
    reveal_strlit("crc32");
    reveal_strlit("crc32_rfc1510");
    reveal_strlit("crc24_rfc2440");
    assert("none"@.len() == 4 && "none"@[0] == 'n');
    assert("md2"@.len() == 3 && "md2"@[2] == '2');
    assert("md4"@.len() == 3 && "md4"@[2] == '4');
    assert("md5"@.len() == 3 && "md5"@[2] == '5');
    assert("sha1"@.len() == 4 && "sha1"@[0] == 's');
    assert("sha224"@.len() == 6 && "sha224"@[3] == '2' && "sha224"@[4] == '2');
    assert("sha256"@.len() == 6 && "sha256"@[3] == '2' && "sha256"@[4] == '5');
    assert("sha384"@.len() == 6 && "sha384"@[3] == '3');
    assert("sha512"@.len() == 6 && "sha512"@[3] == '5');
    assert("ripe_md160"@.len() == 10);
    assert("tiger"@.len() == 5 && "tiger"@[0] == 't');
    assert("haval"@.len() == 5 && "haval"@[0] == 'h');
    assert("crc32"@.len() == 5 && "crc32"@[0] == 'c');
    assert("crc32_rfc1510"@.len() == 13 && "crc32_rfc1510"@[3] == '3');
    assert("crc24_rfc2440"@.len() == 13 && "crc24_rfc2440"@[3] == '2');
    match algorithm {
        HashAlgorithm::Other(code) => {
            lemma_other_code(code);
        },
        _ => {},
    }
}

} // verus!
