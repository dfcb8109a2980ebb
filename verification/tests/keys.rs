use exgpgme::error::BridgeError;
use exgpgme::context::resource::Handle;
use exgpgme::keys::{keys_not_empty, unpack_key_list, wrap_key, Key, KeyResource};
use exgpgme::term::Term;

#[test]
fn an_empty_recipient_list_is_a_bad_argument() {
    assert_eq!(keys_not_empty(0), Err(BridgeError::BadArgument));
}

#[test]
fn one_recipient_or_more_is_accepted() {
    assert_eq!(keys_not_empty(1), Ok(()));
    assert_eq!(keys_not_empty(2), Ok(()));
    assert_eq!(keys_not_empty(usize::MAX), Ok(()));
}

#[test]
fn a_key_resource_holds_the_key_it_wraps() {
    assert_eq!(wrap_key(Key { id: 7 }), KeyResource { key: Key { id: 7 } });
}

#[test]
fn a_list_of_key_handles_is_unpacked_in_order() {
    let first = KeyResource { key: Key { id: 1 } };
    let second = KeyResource { key: Key { id: 2 } };
    let list = Term::List(vec![Term::Key(second), Term::Key(first), Term::Key(second)]);
    assert_eq!(unpack_key_list(&list), Ok(vec![second, first, second]));
    assert_eq!(unpack_key_list(&Term::List(vec![])), Ok(vec![]));
}

#[test]
fn a_key_list_with_anything_else_is_a_bad_argument() {
    let key = KeyResource { key: Key { id: 1 } };
    let mixed = Term::List(vec![Term::Key(key), Term::Integer(1)]);
    assert_eq!(unpack_key_list(&mixed), Err(BridgeError::BadArgument));
    let foreign = Term::List(vec![Term::Context(Handle { index: 0, generation: 0 })]);
    assert_eq!(unpack_key_list(&foreign), Err(BridgeError::BadArgument));
    assert_eq!(unpack_key_list(&Term::Key(key)), Err(BridgeError::BadArgument));
    let tuple = Term::Tuple(vec![Term::Key(key)]);
    assert_eq!(unpack_key_list(&tuple), Err(BridgeError::BadArgument));
}
