use exgpgme::context::resource::{wrap_context, Access, Handle, Registry};
use exgpgme::context::session::{Context, Setting};
use exgpgme::error::BridgeError;
use exgpgme::keys::{Key, KeyResource};
use exgpgme::pinentry_mode::PinentryMode;
use exgpgme::protocol::Protocol;
use exgpgme::term::Term;

#[test]
fn a_new_registry_holds_nothing() {
    let registry = Registry::new();
    let handle = Handle { index: 0, generation: 0 };
    assert!(!registry.contains(handle));
    assert_eq!(registry.get(handle), None);
    assert_eq!(registry.check_immutable(&Term::Context(handle)), Access::Bad);
    assert_eq!(registry.check_mutable(&Term::Context(handle)), Access::Bad);
}

#[test]
fn a_wrapped_context_is_found_by_its_handle() {
    let mut registry = Registry::new();
    let first = wrap_context(&mut registry, Context::new(Protocol::OpenPgp));
    let second = wrap_context(&mut registry, Context::new(Protocol::Cms));
    assert_ne!(first, second);
    assert!(registry.contains(first));
    assert!(registry.contains(second));
    assert_eq!(registry.get(first), Some(&Context::new(Protocol::OpenPgp)));
    assert_eq!(registry.get(second), Some(&Context::new(Protocol::Cms)));
}

#[test]
fn a_fresh_context_has_the_default_settings() {
    let context = Context::new(Protocol::Assuan);
    assert_eq!(context.protocol, Protocol::Assuan);
    assert!(!context.armor);
    assert!(!context.text_mode);
    assert!(!context.offline);
    assert_eq!(context.pinentry_mode, PinentryMode::Default);
    assert!(context.flags.is_empty());
    assert_eq!(context.engine_path, None);
    assert_eq!(context.engine_home_dir, None);
}

#[test]
fn contexts_are_independent() {
    let mut registry = Registry::new();
    let first = wrap_context(&mut registry, Context::new(Protocol::OpenPgp));
    let second = wrap_context(&mut registry, Context::new(Protocol::OpenPgp));
    assert_eq!(registry.update(first, Setting::Armor(true)), Ok(()));
    assert!(registry.get(first).unwrap().armor);
    assert!(!registry.get(second).unwrap().armor);
    assert_eq!(registry.unpack_mutable(&Term::Context(first)), Access::Granted(first));
    assert_eq!(registry.unpack_mutable(&Term::Context(second)), Access::Granted(second));
}

#[test]
fn each_setting_changes_what_it_names() {
    let mut context = Context::new(Protocol::OpenPgp);
    context.apply(Setting::Armor(true));
    context.apply(Setting::TextMode(true));
    context.apply(Setting::Offline(true));
    context.apply(Setting::PinentryMode(PinentryMode::Loopback));
    context.apply(Setting::EnginePath("/opt/gpg".to_string()));
    context.apply(Setting::EngineHomeDir("/tmp/home".to_string()));
    context.apply(Setting::Flag("full-status".to_string(), "1".to_string()));
    assert_eq!(
        context,
        Context {
            protocol: Protocol::OpenPgp,
            armor: true,
            text_mode: true,
            offline: true,
            pinentry_mode: PinentryMode::Loopback,
            flags: vec![("full-status".to_string(), "1".to_string())],
            engine_path: Some("/opt/gpg".to_string()),
            engine_home_dir: Some("/tmp/home".to_string()),
        }
    );
    context.apply(Setting::Armor(false));
    assert!(!context.armor);
    assert!(context.text_mode);
    assert!(context.offline);
}

#[test]
fn a_flag_that_is_set_again_has_the_later_value() {
    let mut context = Context::new(Protocol::OpenPgp);
    assert_eq!(context.get_flag(&"a".to_string()), None);
    context.set_flag("a".to_string(), "1".to_string());
    context.set_flag("b".to_string(), "2".to_string());
    context.set_flag("a".to_string(), "3".to_string());
    assert_eq!(context.get_flag(&"a".to_string()), Some("3".to_string()));
    assert_eq!(context.get_flag(&"b".to_string()), Some("2".to_string()));
    assert_eq!(context.get_flag(&"c".to_string()), None);
    assert_eq!(context.flags.len(), 2);
}

#[test]
fn where_a_name_occurs_twice_the_first_entry_counts() {
    let mut context = Context::new(Protocol::OpenPgp);
    context.flags = vec![
        ("a".to_string(), "first".to_string()),
        ("a".to_string(), "second".to_string()),
    ];
    assert_eq!(context.get_flag(&"a".to_string()), Some("first".to_string()));
    context.set_flag("a".to_string(), "third".to_string());
    assert_eq!(context.get_flag(&"a".to_string()), Some("third".to_string()));
}

#[test]
fn updating_through_a_handle_that_stands_for_nothing_is_a_bad_argument() {
    let mut registry = Registry::new();
    let handle = Handle { index: 5, generation: 0 };
    assert_eq!(registry.update(handle, Setting::Armor(true)), Err(BridgeError::BadArgument));
    assert_eq!(registry.retain(handle), Err(BridgeError::BadArgument));
    assert_eq!(registry.release(handle), Err(BridgeError::BadArgument));
    assert_eq!(registry.release_immutable(handle), Err(BridgeError::BadArgument));
    assert_eq!(registry.release_mutable(handle), Err(BridgeError::BadArgument));
}

#[test]
fn releasing_the_last_reference_makes_the_handle_stale() {
    let mut registry = Registry::new();
    let handle = wrap_context(&mut registry, Context::new(Protocol::OpenPgp));
    assert_eq!(registry.release(handle), Ok(true));
    assert!(!registry.contains(handle));
    assert_eq!(registry.get(handle), None);
    assert_eq!(registry.check_immutable(&Term::Context(handle)), Access::Bad);
    assert_eq!(registry.check_mutable(&Term::Context(handle)), Access::Bad);
    assert_eq!(registry.unpack_immutable(&Term::Context(handle)), Access::Bad);
    assert_eq!(registry.unpack_mutable(&Term::Context(handle)), Access::Bad);
    assert_eq!(registry.release(handle), Err(BridgeError::BadArgument));
    assert_eq!(registry.retain(handle), Err(BridgeError::BadArgument));
}

#[test]
fn a_context_lives_until_all_its_references_are_released() {
    let mut registry = Registry::new();
    let handle = wrap_context(&mut registry, Context::new(Protocol::OpenPgp));
    assert_eq!(registry.retain(handle), Ok(()));
    assert_eq!(registry.retain(handle), Ok(()));
    assert_eq!(registry.release(handle), Ok(false));
    assert!(registry.contains(handle));
    assert_eq!(registry.release(handle), Ok(false));
    assert!(registry.contains(handle));
    assert_eq!(registry.release(handle), Ok(true));
    assert!(!registry.contains(handle));
}

#[test]
fn a_stale_handle_stays_stale_when_its_slot_is_used_again() {
    let mut registry = Registry::new();
    let old = wrap_context(&mut registry, Context::new(Protocol::OpenPgp));
    assert_eq!(registry.release(old), Ok(true));
    let new = wrap_context(&mut registry, Context::new(Protocol::Cms));
    assert_ne!(old, new);
    assert_eq!(new.index, old.index);
    assert!(registry.contains(new));
    assert!(!registry.contains(old));
    assert_eq!(registry.get(old), None);
    assert_eq!(registry.get(new).unwrap().protocol, Protocol::Cms);
    assert_eq!(registry.update(old, Setting::Armor(true)), Err(BridgeError::BadArgument));
    assert!(!registry.get(new).unwrap().armor);
}

#[test]
fn the_first_free_slot_is_used_first() {
    let mut registry = Registry::new();
    let a = wrap_context(&mut registry, Context::new(Protocol::OpenPgp));
    let b = wrap_context(&mut registry, Context::new(Protocol::OpenPgp));
    let c = wrap_context(&mut registry, Context::new(Protocol::OpenPgp));
    assert_eq!(a, Handle { index: 0, generation: 0 });
    assert_eq!(b, Handle { index: 1, generation: 0 });
    assert_eq!(c, Handle { index: 2, generation: 0 });
    assert_eq!(registry.release(b), Ok(true));
    assert_eq!(registry.release(a), Ok(true));
    let d = wrap_context(&mut registry, Context::new(Protocol::OpenPgp));
    let e = wrap_context(&mut registry, Context::new(Protocol::OpenPgp));
    let f = wrap_context(&mut registry, Context::new(Protocol::OpenPgp));
    assert_eq!(d, Handle { index: 0, generation: 1 });
    assert_eq!(e, Handle { index: 1, generation: 1 });
    assert_eq!(f, Handle { index: 3, generation: 0 });
}

#[test]
fn a_value_of_another_kind_is_no_context_handle() {
    let mut registry = Registry::new();
    let handle = wrap_context(&mut registry, Context::new(Protocol::OpenPgp));
    let key = Term::Key(KeyResource { key: Key { id: handle.index as u64 } });
    assert_eq!(registry.check_immutable(&key), Access::Bad);
    assert_eq!(registry.check_mutable(&key), Access::Bad);
    assert_eq!(registry.unpack_mutable(&Term::Integer(0)), Access::Bad);
    assert_eq!(registry.unpack_immutable(&Term::Atom("context".to_string())), Access::Bad);
    let wrong_generation = Handle { index: handle.index, generation: handle.generation + 1 };
    assert_eq!(registry.check_mutable(&Term::Context(wrong_generation)), Access::Bad);
}

#[test]
fn readers_share_and_writers_exclude() {
    let mut registry = Registry::new();
    let handle = wrap_context(&mut registry, Context::new(Protocol::OpenPgp));
    let arg = Term::Context(handle);
    assert_eq!(registry.unpack_immutable(&arg), Access::Granted(handle));
    assert_eq!(registry.unpack_immutable(&arg), Access::Granted(handle));
    assert_eq!(registry.unpack_mutable(&arg), Access::Busy);
    assert_eq!(registry.release_immutable(handle), Ok(()));
    assert_eq!(registry.unpack_mutable(&arg), Access::Busy);
    assert_eq!(registry.release_immutable(handle), Ok(()));
    assert_eq!(registry.release_immutable(handle), Err(BridgeError::BadArgument));
    assert_eq!(registry.unpack_mutable(&arg), Access::Granted(handle));
    assert_eq!(registry.unpack_mutable(&arg), Access::Busy);
    assert_eq!(registry.unpack_immutable(&arg), Access::Busy);
    assert_eq!(registry.check_immutable(&arg), Access::Busy);
    assert_eq!(registry.check_mutable(&arg), Access::Busy);
    assert_eq!(registry.release_immutable(handle), Err(BridgeError::BadArgument));
    assert_eq!(registry.release_mutable(handle), Ok(()));
    assert_eq!(registry.release_mutable(handle), Err(BridgeError::BadArgument));
    assert_eq!(registry.check_mutable(&arg), Access::Granted(handle));
}

fn counter(registry: &Registry, handle: Handle) -> u32 {
    match registry.get(handle).unwrap().get_flag(&"counter".to_string()) {
        Some(value) => value.parse().unwrap(),
        None => 0,
    }
}

#[test]
fn two_writers_do_not_lose_an_update() {
    let mut registry = Registry::new();
    let handle = wrap_context(&mut registry, Context::new(Protocol::OpenPgp));
    let arg = Term::Context(handle);

    // The first writer takes the context and reads the counter.
    assert_eq!(registry.unpack_mutable(&arg), Access::Granted(handle));
    let seen_by_first = counter(&registry, handle);

    // The second writer comes in between, and has to wait.
    assert_eq!(registry.unpack_mutable(&arg), Access::Busy);
    assert_eq!(registry.unpack_immutable(&arg), Access::Busy);

    // The first writer writes and gives the context back.
    let written = Setting::Flag("counter".to_string(), (seen_by_first + 1).to_string());
    assert_eq!(registry.update(handle, written), Ok(()));
    assert_eq!(registry.release_mutable(handle), Ok(()));

    // Now the second writer gets in, and sees what the first one wrote.
    assert_eq!(registry.unpack_mutable(&arg), Access::Granted(handle));
    let seen_by_second = counter(&registry, handle);
    assert_eq!(seen_by_second, 1);
    let written = Setting::Flag("counter".to_string(), (seen_by_second + 1).to_string());
    assert_eq!(registry.update(handle, written), Ok(()));
    assert_eq!(registry.release_mutable(handle), Ok(()));

    assert_eq!(counter(&registry, handle), 2);
}
