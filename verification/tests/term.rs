use exgpgme::context::resource::Handle;
use exgpgme::error::BridgeError;
use exgpgme::keys::{Key, KeyResource};
use exgpgme::term::{is_tag, put_field, put_item, Term};

fn atom(name: &str) -> Term {
    Term::Atom(name.to_string())
}

#[test]
fn atoms_texts_and_integers_are_built_as_written() {
    assert_eq!(Term::atom("ok"), atom("ok"));
    assert_eq!(Term::text("hello".to_string()), Term::Text("hello".to_string()));
    assert_eq!(Term::literal("hello"), Term::Text("hello".to_string()));
    assert_eq!(Term::integer(-3), Term::Integer(-3));
    assert_ne!(Term::atom("ok"), Term::literal("ok"));
}

#[test]
fn booleans_and_null_are_atoms() {
    assert_eq!(Term::boolean(true), atom("true"));
    assert_eq!(Term::boolean(false), atom("false"));
    assert_eq!(Term::nil(), atom("nil"));
}

#[test]
fn a_tagged_pair_is_a_tuple_of_two() {
    assert_eq!(
        Term::tagged("ok", Term::Integer(5)),
        Term::Tuple(vec![atom("ok"), Term::Integer(5)])
    );
    assert_eq!(Term::other(42), Term::Tuple(vec![atom("other"), Term::Integer(42)]));
    assert_eq!(
        Term::other(u32::MAX),
        Term::Tuple(vec![atom("other"), Term::Integer(4294967295)])
    );
}

#[test]
fn lists_and_records_keep_their_order() {
    let mut items = Vec::new();
    put_item(&mut items, Term::Integer(1));
    put_item(&mut items, Term::Integer(2));
    assert_eq!(Term::list(items), Term::List(vec![Term::Integer(1), Term::Integer(2)]));

    let mut fields = Vec::new();
    put_field(&mut fields, "b", Term::Integer(1));
    put_field(&mut fields, "a", Term::Integer(2));
    assert_eq!(
        Term::record("Elixir.Some", fields),
        Term::Record(
            "Elixir.Some".to_string(),
            vec![("b".to_string(), Term::Integer(1)), ("a".to_string(), Term::Integer(2))]
        )
    );
}

#[test]
fn is_tag_compares_the_whole_name() {
    assert!(is_tag(&"rsa".to_string(), "rsa"));
    assert!(!is_tag(&"rsa".to_string(), "rsa_sign"));
    assert!(!is_tag(&"rsa_sign".to_string(), "rsa"));
    assert!(!is_tag(&"".to_string(), "rsa"));
    assert!(is_tag(&"".to_string(), ""));
}

#[test]
fn atom_to_string_takes_atoms_only() {
    assert_eq!(atom("cms").atom_to_string(), Ok(&"cms".to_string()));
    assert_eq!(Term::literal("cms").atom_to_string(), Err(BridgeError::BadArgument));
    assert_eq!(Term::Integer(1).atom_to_string(), Err(BridgeError::BadArgument));
}

#[test]
fn decode_other_takes_the_pair_and_nothing_else() {
    assert_eq!(Term::other(7).decode_other(), Ok(7));
    assert_eq!(Term::other(0).decode_other(), Ok(0));
    assert_eq!(Term::other(u32::MAX).decode_other(), Ok(u32::MAX));
    let too_large = Term::Tuple(vec![atom("other"), Term::Integer(4294967296)]);
    assert_eq!(too_large.decode_other(), Err(BridgeError::BadArgument));
    let negative = Term::Tuple(vec![atom("other"), Term::Integer(-1)]);
    assert_eq!(negative.decode_other(), Err(BridgeError::BadArgument));
    let wrong_tag = Term::Tuple(vec![atom("another"), Term::Integer(1)]);
    assert_eq!(wrong_tag.decode_other(), Err(BridgeError::BadArgument));
    let text_tag = Term::Tuple(vec![Term::literal("other"), Term::Integer(1)]);
    assert_eq!(text_tag.decode_other(), Err(BridgeError::BadArgument));
    let no_code = Term::Tuple(vec![atom("other"), atom("one")]);
    assert_eq!(no_code.decode_other(), Err(BridgeError::BadArgument));
    let short = Term::Tuple(vec![atom("other")]);
    assert_eq!(short.decode_other(), Err(BridgeError::BadArgument));
    let empty = Term::Tuple(vec![]);
    assert_eq!(empty.decode_other(), Err(BridgeError::BadArgument));
    let long = Term::Tuple(vec![atom("other"), Term::Integer(1), Term::Integer(2)]);
    assert_eq!(long.decode_other(), Err(BridgeError::BadArgument));
    let list = Term::List(vec![atom("other"), Term::Integer(1)]);
    assert_eq!(list.decode_other(), Err(BridgeError::BadArgument));
}

#[test]
fn decode_bool_takes_the_two_atoms() {
    assert_eq!(Term::boolean(true).decode_bool(), Ok(true));
    assert_eq!(Term::boolean(false).decode_bool(), Ok(false));
    assert_eq!(atom("yes").decode_bool(), Err(BridgeError::BadArgument));
    assert_eq!(Term::nil().decode_bool(), Err(BridgeError::BadArgument));
    assert_eq!(Term::literal("true").decode_bool(), Err(BridgeError::BadArgument));
    assert_eq!(Term::Integer(1).decode_bool(), Err(BridgeError::BadArgument));
}

#[test]
fn decode_text_takes_texts_only() {
    assert_eq!(Term::literal("data").decode_text(), Ok("data".to_string()));
    assert_eq!(Term::literal("").decode_text(), Ok(String::new()));
    assert_eq!(atom("data").decode_text(), Err(BridgeError::BadArgument));
    assert_eq!(Term::List(vec![]).decode_text(), Err(BridgeError::BadArgument));
}

#[test]
fn decode_list_takes_lists_only() {
    let list = Term::List(vec![Term::Integer(1), atom("a")]);
    assert_eq!(list.decode_list(), Ok(&vec![Term::Integer(1), atom("a")]));
    assert_eq!(Term::List(vec![]).decode_list(), Ok(&vec![]));
    let tuple = Term::Tuple(vec![Term::Integer(1)]);
    assert_eq!(tuple.decode_list(), Err(BridgeError::BadArgument));
}

#[test]
fn handles_decode_by_their_kind() {
    let handle = Handle { index: 3, generation: 9 };
    let key = KeyResource { key: Key { id: 11 } };
    assert_eq!(Term::Context(handle).decode_context(), Ok(handle));
    assert_eq!(Term::Key(key).decode_key(), Ok(key));
    assert_eq!(Term::Key(key).decode_context(), Err(BridgeError::BadArgument));
    assert_eq!(Term::Context(handle).decode_key(), Err(BridgeError::BadArgument));
    assert_eq!(Term::Integer(3).decode_context(), Err(BridgeError::BadArgument));
    assert_eq!(Term::nil().decode_key(), Err(BridgeError::BadArgument));
}
