use exgpgme::encrypt_flags::{arg_to_protocol, string_to_flag, EncryptFlag, EncryptFlags};
use exgpgme::error::BridgeError;
use exgpgme::term::Term;

fn atom(name: &str) -> Term {
    Term::Atom(name.to_string())
}

fn all_flags() -> Vec<(EncryptFlag, String)> {
    vec![
        (EncryptFlag::AlwaysTrust, "always_trust".to_string()),
        (EncryptFlag::ExpectSign, "expect_sign".to_string()),
        (EncryptFlag::NoCompress, "no_compress".to_string()),
        (EncryptFlag::NoEncryptTo, "no_encrypt_to".to_string()),
        (EncryptFlag::Prepare, "prepare".to_string()),
        (EncryptFlag::Symmetric, "symmetric".to_string()),
        (EncryptFlag::ThrowKeyids, "throw_keyids".to_string()),
        (EncryptFlag::Wrap, "wrap".to_string()),
    ]
}

#[test]
fn each_name_gives_the_set_of_its_flag_alone() {
    for (flag, name) in all_flags() {
        let flags = string_to_flag(name).unwrap();
        assert_eq!(flags, EncryptFlags::only(flag));
        for (other, _) in all_flags() {
            assert_eq!(flags.contains(other), other == flag);
        }
    }
}

#[test]
fn a_name_outside_the_vocabulary_is_a_bad_argument() {
    assert_eq!(string_to_flag("".to_string()), Err(BridgeError::BadArgument));
    assert_eq!(string_to_flag("trust".to_string()), Err(BridgeError::BadArgument));
    assert_eq!(string_to_flag("ALWAYS_TRUST".to_string()), Err(BridgeError::BadArgument));
    assert_eq!(string_to_flag("wrap ".to_string()), Err(BridgeError::BadArgument));
    assert_eq!(string_to_flag("other".to_string()), Err(BridgeError::BadArgument));
}

#[test]
fn the_empty_list_gives_the_empty_set() {
    let flags = arg_to_protocol(&vec![]).unwrap();
    assert_eq!(flags, EncryptFlags::empty());
    for (flag, _) in all_flags() {
        assert!(!flags.contains(flag));
    }
}

#[test]
fn a_list_gives_the_set_of_the_flags_it_names() {
    let flags = arg_to_protocol(&vec![atom("wrap"), atom("always_trust"), atom("wrap")]).unwrap();
    assert!(flags.contains(EncryptFlag::Wrap));
    assert!(flags.contains(EncryptFlag::AlwaysTrust));
    assert!(!flags.contains(EncryptFlag::ExpectSign));
    assert!(!flags.contains(EncryptFlag::NoCompress));
    assert!(!flags.contains(EncryptFlag::NoEncryptTo));
    assert!(!flags.contains(EncryptFlag::Prepare));
    assert!(!flags.contains(EncryptFlag::Symmetric));
    assert!(!flags.contains(EncryptFlag::ThrowKeyids));
    let mut expected = EncryptFlags::empty();
    expected.insert(EncryptFlags::only(EncryptFlag::AlwaysTrust));
    expected.insert(EncryptFlags::only(EncryptFlag::Wrap));
    assert_eq!(flags, expected);
}

#[test]
fn the_list_of_all_names_gives_the_full_set() {
    let atoms: Vec<Term> = all_flags().into_iter().map(|(_, name)| Term::Atom(name)).collect();
    let flags = arg_to_protocol(&atoms).unwrap();
    for (flag, _) in all_flags() {
        assert!(flags.contains(flag));
    }
}

#[test]
fn one_item_outside_the_vocabulary_fails_the_whole_list() {
    assert_eq!(
        arg_to_protocol(&vec![atom("wrap"), atom("unwrap")]),
        Err(BridgeError::BadArgument)
    );
    assert_eq!(
        arg_to_protocol(&vec![atom("bogus"), atom("wrap")]),
        Err(BridgeError::BadArgument)
    );
    assert_eq!(
        arg_to_protocol(&vec![atom("wrap"), Term::Text("prepare".to_string())]),
        Err(BridgeError::BadArgument)
    );
    assert_eq!(arg_to_protocol(&vec![Term::Integer(1)]), Err(BridgeError::BadArgument));
}

#[test]
fn insert_is_union() {
    let mut flags = EncryptFlags::only(EncryptFlag::Prepare);
    flags.insert(EncryptFlags::only(EncryptFlag::Symmetric));
    flags.insert(EncryptFlags::only(EncryptFlag::Prepare));
    assert!(flags.contains(EncryptFlag::Prepare));
    assert!(flags.contains(EncryptFlag::Symmetric));
    assert!(!flags.contains(EncryptFlag::Wrap));
    flags.insert(EncryptFlags::empty());
    assert!(flags.contains(EncryptFlag::Prepare));
    assert!(flags.contains(EncryptFlag::Symmetric));
    assert!(!flags.contains(EncryptFlag::AlwaysTrust));
}
