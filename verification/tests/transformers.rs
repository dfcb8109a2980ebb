use exgpgme::engine::{engine_info_to_term, get_engine_info, EngineInfo};
use exgpgme::error::BridgeError;
use exgpgme::hash_algorithm::HashAlgorithm;
use exgpgme::helpers::string_or_null;
use exgpgme::key_algorithm::KeyAlgorithm;
use exgpgme::keys::{Key, KeyResource};
use exgpgme::notation::signature_notation::{transform_signature_notation, SignatureNotation};
use exgpgme::protocol::Protocol;
use exgpgme::results::import::{transform_import, Import};
use exgpgme::results::import_result::{transform_import_result, ImportResult};
use exgpgme::results::pka_trust::PkaTrust;
use exgpgme::results::signature::{
    time_or_nil,
    transform_notations,
    transform_signature,
    Signature,
};
use exgpgme::results::verification_result::{transform_verification_result, VerificationResult};
use exgpgme::term::Term;
use exgpgme::validity::Validity;

fn atom(name: &str) -> Term {
    Term::Atom(name.to_string())
}

fn text(s: &str) -> Term {
    Term::Text(s.to_string())
}

fn bytes(s: &str) -> Option<Vec<u8>> {
    Some(s.as_bytes().to_vec())
}

fn broken() -> Option<Vec<u8>> {
    Some(vec![0x66, 0x6f, 0xff, 0x6f])
}

fn field(name: &str, value: Term) -> (String, Term) {
    (name.to_string(), value)
}

fn notation(name: &str, value: &str) -> SignatureNotation {
    SignatureNotation {
        is_human_readable: true,
        is_critical: false,
        name: bytes(name),
        value: bytes(value),
    }
}

fn notation_record(name: Term, value: Term) -> Term {
    Term::Record(
        "Elixir.ExGpgme.Notation.SignatureNotation".to_string(),
        vec![
            field("is_human_readable", atom("true")),
            field("is_critical", atom("false")),
            field("name", name),
            field("value", value),
        ],
    )
}

fn signature(fingerprint: &str) -> Signature {
    Signature {
        fingerprint: bytes(fingerprint),
        is_valid: true,
        creation_time: Some(1500000000),
        expiration_time: None,
        never_expires: true,
        is_wrong_key_usage: false,
        verified_by_chain: false,
        pka_trust: PkaTrust::Unknown,
        pka_address: None,
        validity: Validity::Full,
        nonvalidity_reason: None,
        key_algorithm: KeyAlgorithm::Rsa,
        hash_algorithm: HashAlgorithm::Sha256,
        policy_url: None,
        notations: vec![],
        key: None,
    }
}

fn signature_record(fingerprint: &str) -> Term {
    Term::Record(
        "Elixir.ExGpgme.Results.Signature".to_string(),
        vec![
            field("status", atom("valid")),
            field("fingerprint", text(fingerprint)),
            field("creation_time", Term::Integer(1500000000)),
            field("expiration_time", atom("nil")),
            field("never_expires", atom("true")),
            field("is_wrong_key_usage", atom("false")),
            field("verified_by_chain", atom("false")),
            field("pka_trust", atom("unknown")),
            field("pka_address", atom("nil")),
            field("validity", atom("full")),
            field("nonvalidity_reason", atom("nil")),
            field("key_algorithm", atom("rsa")),
            field("hash_algorithm", atom("sha256")),
            field("policy_url", atom("nil")),
            field("notations", Term::List(vec![])),
            field("key", atom("nil")),
        ],
    )
}

#[test]
fn engine_text_is_decoded_as_utf8() {
    assert_eq!(string_or_null(&bytes("A1B2")), Ok(text("A1B2")));
    assert_eq!(string_or_null(&bytes("")), Ok(text("")));
    assert_eq!(string_or_null(&bytes("grüße, 世界")), Ok(text("grüße, 世界")));
    assert_eq!(string_or_null(&Some(vec![0xe4, 0xb8, 0x96])), Ok(text("世")));
}

#[test]
fn absent_engine_text_is_null() {
    assert_eq!(string_or_null(&None), Ok(atom("nil")));
}

#[test]
fn undecodable_engine_text_is_a_decode_failure() {
    assert_eq!(string_or_null(&broken()), Err(BridgeError::DecodeFailure));
    assert_eq!(string_or_null(&Some(vec![0xff])), Err(BridgeError::DecodeFailure));
    assert_eq!(string_or_null(&Some(vec![0xe4, 0xb8])), Err(BridgeError::DecodeFailure));
    assert_eq!(string_or_null(&Some(vec![0xc0, 0x80])), Err(BridgeError::DecodeFailure));
    assert_eq!(string_or_null(&Some(vec![0xed, 0xa0, 0x80])), Err(BridgeError::DecodeFailure));
}

#[test]
fn a_notation_becomes_a_record() {
    assert_eq!(
        transform_signature_notation(&notation("issuer@example.org", "yes")),
        Ok(notation_record(text("issuer@example.org"), text("yes")))
    );
}

#[test]
fn a_notation_without_name_has_a_null_name() {
    let nameless = SignatureNotation {
        is_human_readable: false,
        is_critical: true,
        name: None,
        value: bytes("https://example.org/policy"),
    };
    assert_eq!(
        transform_signature_notation(&nameless),
        Ok(Term::Record(
            "Elixir.ExGpgme.Notation.SignatureNotation".to_string(),
            vec![
                field("is_human_readable", atom("false")),
                field("is_critical", atom("true")),
                field("name", atom("nil")),
                field("value", text("https://example.org/policy")),
            ],
        ))
    );
}

#[test]
fn a_notation_with_undecodable_text_fails() {
    let mut bad_name = notation("a", "b");
    bad_name.name = broken();
    assert_eq!(transform_signature_notation(&bad_name), Err(BridgeError::DecodeFailure));
    let mut bad_value = notation("a", "b");
    bad_value.value = broken();
    assert_eq!(transform_signature_notation(&bad_value), Err(BridgeError::DecodeFailure));
}

#[test]
fn notations_keep_their_order() {
    let notations = vec![notation("b", "2"), notation("a", "1"), notation("c", "3")];
    assert_eq!(
        transform_notations(&notations),
        Ok(vec![
            notation_record(text("b"), text("2")),
            notation_record(text("a"), text("1")),
            notation_record(text("c"), text("3")),
        ])
    );
    assert_eq!(transform_notations(&vec![]), Ok(vec![]));
}

#[test]
fn one_undecodable_notation_fails_all() {
    let mut second = notation("a", "1");
    second.value = broken();
    let notations = vec![notation("b", "2"), second, notation("c", "3")];
    assert_eq!(transform_notations(&notations), Err(BridgeError::DecodeFailure));
}

#[test]
fn an_import_becomes_a_record() {
    let import = Import { fingerprint: bytes("0123456789ABCDEF") };
    assert_eq!(
        transform_import(&import),
        Ok(Term::Record(
            "Elixir.ExGpgme.Results.Import".to_string(),
            vec![field("fingerprint", text("0123456789ABCDEF"))],
        ))
    );
}

#[test]
fn an_import_without_fingerprint_has_a_null_fingerprint() {
    assert_eq!(
        transform_import(&Import { fingerprint: None }),
        Ok(Term::Record(
            "Elixir.ExGpgme.Results.Import".to_string(),
            vec![field("fingerprint", atom("nil"))],
        ))
    );
}

#[test]
fn an_import_with_undecodable_fingerprint_fails() {
    assert_eq!(
        transform_import(&Import { fingerprint: broken() }),
        Err(BridgeError::DecodeFailure)
    );
}

fn import_result(imports: Vec<Import>) -> ImportResult {
    ImportResult {
        considered: 13,
        without_user_id: 12,
        imported: 11,
        imported_rsa: 10,
        unchanged: 9,
        new_user_ids: 8,
        new_subkeys: 7,
        new_signatures: 6,
        new_revocations: 5,
        secret_considered: 4,
        secret_imported: 3,
        secret_unchanged: 2,
        not_imported: u32::MAX,
        imports,
    }
}

#[test]
fn an_import_result_becomes_a_record() {
    let result = import_result(vec![
        Import { fingerprint: bytes("BBBB") },
        Import { fingerprint: bytes("AAAA") },
    ]);
    let import_record = |fingerprint: &str| {
        Term::Record(
            "Elixir.ExGpgme.Results.Import".to_string(),
            vec![field("fingerprint", text(fingerprint))],
        )
    };
    assert_eq!(
        transform_import_result(&result),
        Ok(Term::Record(
            "Elixir.ExGpgme.Results.ImportResult".to_string(),
            vec![
                field("considered", Term::Integer(13)),
                field("without_user_id", Term::Integer(12)),
                field("imported", Term::Integer(11)),
                field("imported_rsa", Term::Integer(10)),
                field("unchanged", Term::Integer(9)),
                field("new_user_ids", Term::Integer(8)),
                field("new_subkeys", Term::Integer(7)),
                field("new_signatures", Term::Integer(6)),
                field("new_revocations", Term::Integer(5)),
                field("secret_considered", Term::Integer(4)),
                field("secret_imported", Term::Integer(3)),
                field("secret_unchanged", Term::Integer(2)),
                field("not_imported", Term::Integer(4294967295)),
                field("imports", Term::List(vec![import_record("BBBB"), import_record("AAAA")])),
            ],
        ))
    );
}

#[test]
fn an_import_result_with_one_undecodable_import_fails() {
    let result = import_result(vec![
        Import { fingerprint: bytes("BBBB") },
        Import { fingerprint: broken() },
        Import { fingerprint: bytes("AAAA") },
    ]);
    assert_eq!(transform_import_result(&result), Err(BridgeError::DecodeFailure));
}

#[test]
fn times_are_seconds_or_null() {
    assert_eq!(time_or_nil(Some(0)), Term::Integer(0));
    assert_eq!(time_or_nil(Some(1500000000)), Term::Integer(1500000000));
    assert_eq!(time_or_nil(Some(u64::MAX)), Term::Integer(18446744073709551615));
    assert_eq!(time_or_nil(None), atom("nil"));
}

#[test]
fn a_signature_becomes_a_record() {
    assert_eq!(transform_signature(&signature("ABCD")), Ok(signature_record("ABCD")));
}

#[test]
fn a_signature_with_everything_becomes_a_record() {
    let full = Signature {
        fingerprint: bytes("FFFF"),
        is_valid: false,
        creation_time: Some(10),
        expiration_time: Some(20),
        never_expires: false,
        is_wrong_key_usage: true,
        verified_by_chain: true,
        pka_trust: PkaTrust::Other(4),
        pka_address: bytes("signer@example.org"),
        validity: Validity::Never,
        nonvalidity_reason: Some("Bad signature".to_string()),
        key_algorithm: KeyAlgorithm::Other(99),
        hash_algorithm: HashAlgorithm::NoHash,
        policy_url: bytes("https://example.org"),
        notations: vec![notation("n", "v")],
        key: Some(Key { id: 77 }),
    };
    assert_eq!(
        transform_signature(&full),
        Ok(Term::Record(
            "Elixir.ExGpgme.Results.Signature".to_string(),
            vec![
                field("status", atom("invalid")),
                field("fingerprint", text("FFFF")),
                field("creation_time", Term::Integer(10)),
                field("expiration_time", Term::Integer(20)),
                field("never_expires", atom("false")),
                field("is_wrong_key_usage", atom("true")),
                field("verified_by_chain", atom("true")),
                field("pka_trust", Term::Tuple(vec![atom("other"), Term::Integer(4)])),
                field("pka_address", text("signer@example.org")),
                field("validity", atom("never")),
                field("nonvalidity_reason", text("Bad signature")),
                field("key_algorithm", Term::Tuple(vec![atom("other"), Term::Integer(99)])),
                field("hash_algorithm", atom("none")),
                field("policy_url", text("https://example.org")),
                field("notations", Term::List(vec![notation_record(text("n"), text("v"))])),
                field("key", Term::Key(KeyResource { key: Key { id: 77 } })),
            ],
        ))
    );
}

#[test]
fn a_signature_with_any_undecodable_text_fails() {
    let mut bad = signature("ABCD");
    bad.fingerprint = broken();
    assert_eq!(transform_signature(&bad), Err(BridgeError::DecodeFailure));
    let mut bad = signature("ABCD");
    bad.pka_address = broken();
    assert_eq!(transform_signature(&bad), Err(BridgeError::DecodeFailure));
    let mut bad = signature("ABCD");
    bad.policy_url = broken();
    assert_eq!(transform_signature(&bad), Err(BridgeError::DecodeFailure));
    let mut bad = signature("ABCD");
    let mut bad_notation = notation("n", "v");
    bad_notation.name = broken();
    bad.notations = vec![notation("a", "b"), bad_notation];
    assert_eq!(transform_signature(&bad), Err(BridgeError::DecodeFailure));
}

#[test]
fn a_verification_result_keeps_the_order_of_its_signatures() {
    let result = VerificationResult {
        filename: bytes("message.txt"),
        signatures: vec![signature("CCCC"), signature("AAAA"), signature("BBBB")],
    };
    assert_eq!(
        transform_verification_result(&result),
        Ok(Term::Record(
            "Elixir.ExGpgme.Results.VerificationResult".to_string(),
            vec![
                field("filename", text("message.txt")),
                field(
                    "signatures",
                    Term::List(vec![
                        signature_record("CCCC"),
                        signature_record("AAAA"),
                        signature_record("BBBB"),
                    ])
                ),
            ],
        ))
    );
}

#[test]
fn a_verification_result_without_signatures_has_an_empty_list() {
    let result = VerificationResult { filename: None, signatures: vec![] };
    assert_eq!(
        transform_verification_result(&result),
        Ok(Term::Record(
            "Elixir.ExGpgme.Results.VerificationResult".to_string(),
            vec![field("filename", atom("nil")), field("signatures", Term::List(vec![]))],
        ))
    );
}

#[test]
fn one_undecodable_field_fails_the_whole_verification_result() {
    let mut second = signature("AAAA");
    second.policy_url = broken();
    let result = VerificationResult {
        filename: bytes("message.txt"),
        signatures: vec![signature("CCCC"), second, signature("BBBB")],
    };
    assert_eq!(transform_verification_result(&result), Err(BridgeError::DecodeFailure));
    let mut last = signature("AAAA");
    let mut bad_notation = notation("n", "v");
    bad_notation.value = broken();
    last.notations = vec![bad_notation];
    let result =
        VerificationResult { filename: None, signatures: vec![signature("CCCC"), last] };
    assert_eq!(transform_verification_result(&result), Err(BridgeError::DecodeFailure));
}

#[test]
fn an_undecodable_file_name_fails_the_verification_result() {
    let result = VerificationResult { filename: broken(), signatures: vec![signature("CCCC")] };
    assert_eq!(transform_verification_result(&result), Err(BridgeError::DecodeFailure));
}

#[test]
fn an_engine_description_becomes_a_record() {
    let info = EngineInfo {
        protocol: Protocol::OpenPgp,
        path: bytes("/usr/bin/gpg"),
        home_dir: None,
        version: bytes("2.2.27"),
        required_version: bytes("1.4.0"),
    };
    assert_eq!(
        engine_info_to_term(&info),
        Ok(Term::Record(
            "Elixir.ExGpgme.Engine.EngineInfo".to_string(),
            vec![
                field("protocol", atom("open_pgp")),
                field("path", text("/usr/bin/gpg")),
                field("home_dir", atom("nil")),
                field("version", text("2.2.27")),
                field("required_version", text("1.4.0")),
            ],
        ))
    );
}

#[test]
fn an_engine_description_with_undecodable_text_fails() {
    let good = || EngineInfo {
        protocol: Protocol::Cms,
        path: bytes("/usr/bin/gpgsm"),
        home_dir: bytes("/home/user/.gnupg"),
        version: bytes("2.2.27"),
        required_version: bytes("2.0.4"),
    };
    assert!(engine_info_to_term(&good()).is_ok());
    let mut bad = good();
    bad.path = broken();
    assert_eq!(engine_info_to_term(&bad), Err(BridgeError::DecodeFailure));
    let mut bad = good();
    bad.home_dir = broken();
    assert_eq!(engine_info_to_term(&bad), Err(BridgeError::DecodeFailure));
    let mut bad = good();
    bad.version = broken();
    assert_eq!(engine_info_to_term(&bad), Err(BridgeError::DecodeFailure));
    let mut bad = good();
    bad.required_version = broken();
    assert_eq!(engine_info_to_term(&bad), Err(BridgeError::DecodeFailure));
}

#[test]
fn one_text_of_an_engine_description() {
    assert_eq!(get_engine_info(&bytes("2.2.27")), Ok(text("2.2.27")));
    assert_eq!(get_engine_info(&None), Ok(atom("nil")));
    assert_eq!(get_engine_info(&broken()), Err(BridgeError::DecodeFailure));
}
