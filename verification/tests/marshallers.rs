use exgpgme::error::BridgeError;
use exgpgme::hash_algorithm::{arg_to_hash_algorithm, transform_hash_algorithm, HashAlgorithm};
use exgpgme::key_algorithm::{arg_to_key_algorithm, transform_key_algorithm, KeyAlgorithm};
use exgpgme::pinentry_mode::{arg_to_pinentry_mode, pinentry_mode_to_term, PinentryMode};
use exgpgme::protocol::{arg_to_protocol, protocol_to_nif, Protocol};
use exgpgme::results::pka_trust::{arg_to_pka_trust, transform_pka_trust, PkaTrust};
use exgpgme::sign_mode::{arg_to_sign_mode, sign_mode_to_term, SignMode};
use exgpgme::term::Term;
use exgpgme::validity::{arg_to_validity, transform_validity, Validity};

fn atom(name: &str) -> Term {
    Term::Atom(name.to_string())
}

fn other(code: i128) -> Term {
    Term::Tuple(vec![atom("other"), Term::Integer(code)])
}

fn codes() -> Vec<u32> {
    vec![0, 1, 2, 7, 255, 256, 65535, 65536, 2147483647, 2147483648, u32::MAX - 1, u32::MAX]
}

fn misshapen() -> Vec<Term> {
    vec![
        atom(""),
        atom("other"),
        atom("OPEN_PGP"),
        atom("no_such_tag"),
        Term::Text("default".to_string()),
        Term::Text("unknown".to_string()),
        Term::Integer(0),
        Term::List(vec![atom("other"), Term::Integer(1)]),
        Term::Tuple(vec![]),
        Term::Tuple(vec![atom("other")]),
        Term::Tuple(vec![atom("other"), Term::Integer(1), Term::Integer(2)]),
        Term::Tuple(vec![atom("another"), Term::Integer(1)]),
        Term::Tuple(vec![atom("other"), Term::Integer(-1)]),
        Term::Tuple(vec![atom("other"), Term::Integer(4294967296)]),
        Term::Tuple(vec![atom("other"), atom("one")]),
        Term::Tuple(vec![Term::Integer(1), atom("other")]),
    ]
}

#[test]
fn protocols_are_written_by_their_tags() {
    assert_eq!(protocol_to_nif(Protocol::OpenPgp), atom("open_pgp"));
    assert_eq!(protocol_to_nif(Protocol::Cms), atom("cms"));
    assert_eq!(protocol_to_nif(Protocol::GpgConf), atom("gpg_conf"));
    assert_eq!(protocol_to_nif(Protocol::Assuan), atom("assuan"));
    assert_eq!(protocol_to_nif(Protocol::G13), atom("g13"));
    assert_eq!(protocol_to_nif(Protocol::UiServer), atom("ui_server"));
    assert_eq!(protocol_to_nif(Protocol::Spawn), atom("spawn"));
    assert_eq!(protocol_to_nif(Protocol::Default), atom("default"));
    assert_eq!(protocol_to_nif(Protocol::Unknown), atom("unknown"));
    assert_eq!(protocol_to_nif(Protocol::Other(17)), other(17));
}

#[test]
fn protocols_are_read_from_their_tags() {
    assert_eq!(arg_to_protocol(&atom("open_pgp")), Ok(Protocol::OpenPgp));
    assert_eq!(arg_to_protocol(&atom("cms")), Ok(Protocol::Cms));
    assert_eq!(arg_to_protocol(&atom("gpg_conf")), Ok(Protocol::GpgConf));
    assert_eq!(arg_to_protocol(&atom("assuan")), Ok(Protocol::Assuan));
    assert_eq!(arg_to_protocol(&atom("g13")), Ok(Protocol::G13));
    assert_eq!(arg_to_protocol(&atom("ui_server")), Ok(Protocol::UiServer));
    assert_eq!(arg_to_protocol(&atom("spawn")), Ok(Protocol::Spawn));
    assert_eq!(arg_to_protocol(&atom("default")), Ok(Protocol::Default));
    assert_eq!(arg_to_protocol(&atom("unknown")), Ok(Protocol::Unknown));
    assert_eq!(arg_to_protocol(&other(17)), Ok(Protocol::Other(17)));
}

#[test]
fn protocols_round_trip() {
    let mut all = vec![
        Protocol::OpenPgp,
        Protocol::Cms,
        Protocol::GpgConf,
        Protocol::Assuan,
        Protocol::G13,
        Protocol::UiServer,
        Protocol::Spawn,
        Protocol::Default,
        Protocol::Unknown,
    ];
    for code in codes() {
        all.push(Protocol::Other(code));
    }
    for protocol in all {
        assert_eq!(arg_to_protocol(&protocol_to_nif(protocol)), Ok(protocol));
    }
}

#[test]
fn protocols_outside_the_vocabulary_are_bad_arguments() {
    for term in misshapen() {
        assert_eq!(arg_to_protocol(&term), Err(BridgeError::BadArgument));
    }
    assert_eq!(arg_to_protocol(&atom("ask")), Err(BridgeError::BadArgument));
    assert_eq!(arg_to_protocol(&atom("open_pgp ")), Err(BridgeError::BadArgument));
    assert_eq!(arg_to_protocol(&atom("openpgp")), Err(BridgeError::BadArgument));
}

#[test]
fn pinentry_modes_are_written_by_their_tags() {
    assert_eq!(pinentry_mode_to_term(PinentryMode::Default), atom("default"));
    assert_eq!(pinentry_mode_to_term(PinentryMode::Ask), atom("ask"));
    assert_eq!(pinentry_mode_to_term(PinentryMode::Cancel), atom("cancel"));
    assert_eq!(pinentry_mode_to_term(PinentryMode::Error), atom("error"));
    assert_eq!(pinentry_mode_to_term(PinentryMode::Loopback), atom("loopback"));
    assert_eq!(pinentry_mode_to_term(PinentryMode::Other(9)), other(9));
}

#[test]
fn pinentry_modes_round_trip() {
    let mut all = vec![
        PinentryMode::Default,
        PinentryMode::Ask,
        PinentryMode::Cancel,
        PinentryMode::Error,
        PinentryMode::Loopback,
    ];
    for code in codes() {
        all.push(PinentryMode::Other(code));
    }
    for mode in all {
        assert_eq!(arg_to_pinentry_mode(&pinentry_mode_to_term(mode)), Ok(mode));
    }
}

#[test]
fn pinentry_modes_outside_the_vocabulary_are_bad_arguments() {
    for term in misshapen() {
        assert_eq!(arg_to_pinentry_mode(&term), Err(BridgeError::BadArgument));
    }
    assert_eq!(arg_to_pinentry_mode(&atom("open_pgp")), Err(BridgeError::BadArgument));
    assert_eq!(arg_to_pinentry_mode(&atom("unknown")), Err(BridgeError::BadArgument));
}

#[test]
fn sign_modes_are_read_from_their_tags() {
    assert_eq!(arg_to_sign_mode(&atom("normal")), Ok(SignMode::Normal));
    assert_eq!(arg_to_sign_mode(&atom("detached")), Ok(SignMode::Detached));
    assert_eq!(arg_to_sign_mode(&atom("clear")), Ok(SignMode::Clear));
    assert_eq!(arg_to_sign_mode(&other(3)), Ok(SignMode::Other(3)));
}

#[test]
fn sign_modes_round_trip() {
    let mut all = vec![SignMode::Normal, SignMode::Detached, SignMode::Clear];
    for code in codes() {
        all.push(SignMode::Other(code));
    }
    for mode in all {
        assert_eq!(arg_to_sign_mode(&sign_mode_to_term(mode)), Ok(mode));
    }
    assert_eq!(sign_mode_to_term(SignMode::Detached), atom("detached"));
}

#[test]
fn sign_modes_outside_the_vocabulary_are_bad_arguments() {
    for term in misshapen() {
        assert_eq!(arg_to_sign_mode(&term), Err(BridgeError::BadArgument));
    }
    assert_eq!(arg_to_sign_mode(&atom("default")), Err(BridgeError::BadArgument));
    assert_eq!(arg_to_sign_mode(&atom("unknown")), Err(BridgeError::BadArgument));
}

#[test]
fn validities_are_written_by_their_tags() {
    assert_eq!(transform_validity(Validity::Unknown), atom("unknown"));
    assert_eq!(transform_validity(Validity::Undefined), atom("undefined"));
    assert_eq!(transform_validity(Validity::Never), atom("never"));
    assert_eq!(transform_validity(Validity::Marginal), atom("marginal"));
    assert_eq!(transform_validity(Validity::Full), atom("full"));
    assert_eq!(transform_validity(Validity::Ultimate), atom("ultimate"));
}

#[test]
fn validities_round_trip() {
    let all = vec![
        Validity::Unknown,
        Validity::Undefined,
        Validity::Never,
        Validity::Marginal,
        Validity::Full,
        Validity::Ultimate,
    ];
    for validity in all {
        assert_eq!(arg_to_validity(&transform_validity(validity)), Ok(validity));
    }
}

#[test]
fn validities_outside_the_vocabulary_are_bad_arguments() {
    for term in misshapen() {
        assert_eq!(arg_to_validity(&term), Err(BridgeError::BadArgument));
    }
    assert_eq!(arg_to_validity(&other(1)), Err(BridgeError::BadArgument));
    assert_eq!(arg_to_validity(&atom("default")), Err(BridgeError::BadArgument));
}

#[test]
fn key_algorithms_are_written_by_their_tags() {
    assert_eq!(transform_key_algorithm(KeyAlgorithm::Rsa), atom("rsa"));
    assert_eq!(transform_key_algorithm(KeyAlgorithm::RsaEncrypt), atom("rsa_encrypt"));
    assert_eq!(transform_key_algorithm(KeyAlgorithm::RsaSign), atom("rsa_sign"));
    assert_eq!(transform_key_algorithm(KeyAlgorithm::ElgamalEncrypt), atom("elgamal_encrypt"));
    assert_eq!(transform_key_algorithm(KeyAlgorithm::Dsa), atom("dsa"));
    assert_eq!(transform_key_algorithm(KeyAlgorithm::Ecc), atom("ecc"));
    assert_eq!(transform_key_algorithm(KeyAlgorithm::Elgamal), atom("elgamal"));
    assert_eq!(transform_key_algorithm(KeyAlgorithm::Ecdsa), atom("ecdsa"));
    assert_eq!(transform_key_algorithm(KeyAlgorithm::Ecdh), atom("ecdh"));
    assert_eq!(transform_key_algorithm(KeyAlgorithm::Eddsa), atom("eddsa"));
    assert_eq!(transform_key_algorithm(KeyAlgorithm::Other(303)), other(303));
}

#[test]
fn key_algorithms_round_trip() {
    let mut all = vec![
        KeyAlgorithm::Rsa,
        KeyAlgorithm::RsaEncrypt,
        KeyAlgorithm::RsaSign,
        KeyAlgorithm::ElgamalEncrypt,
        KeyAlgorithm::Dsa,
        KeyAlgorithm::Ecc,
        KeyAlgorithm::Elgamal,
        KeyAlgorithm::Ecdsa,
        KeyAlgorithm::Ecdh,
        KeyAlgorithm::Eddsa,
    ];
    for code in codes() {
        all.push(KeyAlgorithm::Other(code));
    }
    for algorithm in all {
        assert_eq!(arg_to_key_algorithm(&transform_key_algorithm(algorithm)), Ok(algorithm));
    }
}

#[test]
fn key_algorithms_outside_the_vocabulary_are_bad_arguments() {
    for term in misshapen() {
        assert_eq!(arg_to_key_algorithm(&term), Err(BridgeError::BadArgument));
    }
    assert_eq!(arg_to_key_algorithm(&atom("sha1")), Err(BridgeError::BadArgument));
    assert_eq!(arg_to_key_algorithm(&atom("rsa_")), Err(BridgeError::BadArgument));
}

#[test]
fn hash_algorithms_are_written_by_their_tags() {
    assert_eq!(transform_hash_algorithm(HashAlgorithm::NoHash), atom("none"));
    assert_eq!(transform_hash_algorithm(HashAlgorithm::Md2), atom("md2"));
    assert_eq!(transform_hash_algorithm(HashAlgorithm::Md4), atom("md4"));
    assert_eq!(transform_hash_algorithm(HashAlgorithm::Md5), atom("md5"));
    assert_eq!(transform_hash_algorithm(HashAlgorithm::Sha1), atom("sha1"));
    assert_eq!(transform_hash_algorithm(HashAlgorithm::Sha224), atom("sha224"));
    assert_eq!(transform_hash_algorithm(HashAlgorithm::Sha256), atom("sha256"));
    assert_eq!(transform_hash_algorithm(HashAlgorithm::Sha384), atom("sha384"));
    assert_eq!(transform_hash_algorithm(HashAlgorithm::Sha512), atom("sha512"));
    assert_eq!(transform_hash_algorithm(HashAlgorithm::RipeMd160), atom("ripe_md160"));
    assert_eq!(transform_hash_algorithm(HashAlgorithm::Tiger), atom("tiger"));
    assert_eq!(transform_hash_algorithm(HashAlgorithm::Haval), atom("haval"));
    assert_eq!(transform_hash_algorithm(HashAlgorithm::Crc32), atom("crc32"));
    assert_eq!(transform_hash_algorithm(HashAlgorithm::Crc32Rfc1510), atom("crc32_rfc1510"));
    assert_eq!(transform_hash_algorithm(HashAlgorithm::Crc24Rfc2440), atom("crc24_rfc2440"));
    assert_eq!(transform_hash_algorithm(HashAlgorithm::Other(110)), other(110));
}

#[test]
fn hash_algorithms_round_trip() {
    let mut all = vec![
        HashAlgorithm::NoHash,
        HashAlgorithm::Md2,
        HashAlgorithm::Md4,
        HashAlgorithm::Md5,
        HashAlgorithm::Sha1,
        HashAlgorithm::Sha224,
        HashAlgorithm::Sha256,
        HashAlgorithm::Sha384,
        HashAlgorithm::Sha512,
        HashAlgorithm::RipeMd160,
        HashAlgorithm::Tiger,
        HashAlgorithm::Haval,
        HashAlgorithm::Crc32,
        HashAlgorithm::Crc32Rfc1510,
        HashAlgorithm::Crc24Rfc2440,
    ];
    for code in codes() {
        all.push(HashAlgorithm::Other(code));
    }
    for algorithm in all {
        assert_eq!(arg_to_hash_algorithm(&transform_hash_algorithm(algorithm)), Ok(algorithm));
    }
}

#[test]
fn hash_algorithms_outside_the_vocabulary_are_bad_arguments() {
    for term in misshapen() {
        assert_eq!(arg_to_hash_algorithm(&term), Err(BridgeError::BadArgument));
    }
    assert_eq!(arg_to_hash_algorithm(&atom("sha3")), Err(BridgeError::BadArgument));
    assert_eq!(arg_to_hash_algorithm(&atom("rsa")), Err(BridgeError::BadArgument));
}

#[test]
fn pka_trust_is_written_by_its_tags() {
    assert_eq!(transform_pka_trust(PkaTrust::Unknown), atom("unknown"));
    assert_eq!(transform_pka_trust(PkaTrust::Bad), atom("bad"));
    assert_eq!(transform_pka_trust(PkaTrust::Okay), atom("okay"));
    assert_eq!(transform_pka_trust(PkaTrust::Other(3)), other(3));
}

#[test]
fn pka_trust_round_trips() {
    let mut all = vec![PkaTrust::Unknown, PkaTrust::Bad, PkaTrust::Okay];
    for code in codes() {
        all.push(PkaTrust::Other(code));
    }
    for trust in all {
        assert_eq!(arg_to_pka_trust(&transform_pka_trust(trust)), Ok(trust));
    }
}

#[test]
fn pka_trust_outside_the_vocabulary_is_a_bad_argument() {
    for term in misshapen() {
        assert_eq!(arg_to_pka_trust(&term), Err(BridgeError::BadArgument));
    }
    assert_eq!(arg_to_pka_trust(&atom("ok")), Err(BridgeError::BadArgument));
}
