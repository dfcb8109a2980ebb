use vstd::prelude::*;
use crate::context::helpers::{error_view, error_with, ok_reply, ok_view, ok_with, ok_with_view};
use crate::context::resource::{
    exclusive_access,
    fresh_entry,
    read_locked,
    shared_access,
    with_context,
    wrap_context,
    write_locked,
    Access,
    EntryView,
    Handle,
    Registry,
};
use crate::context::session::{
    fresh_context,
    with_setting,
    Context,
    ContextView,
    Setting,
    SettingView,
};
use crate::context::step::{stepped, EngineCall, EngineCallView, Hold, Step, StepView};
use crate::encrypt_flags;
use crate::encrypt_flags::{flag_set, EncryptFlag, EncryptFlags};
use crate::error::BridgeError;
use crate::keys::{key_list, keys_not_empty, term_key, unpack_key_list, KeyResource};
use crate::pinentry_mode::{
    arg_to_pinentry_mode,
    pinentry_mode_term,
    pinentry_mode_to_term,
    term_pinentry_mode,
};
use crate::protocol::{arg_to_protocol, protocol_term, protocol_to_nif, term_protocol, Protocol};
use crate::sign_mode::{arg_to_sign_mode, term_sign_mode};
use crate::term::{bool_of, bool_view, views, Term, TermView};

pub mod helpers;
pub mod laws;
pub mod resource;
pub mod session;
pub mod step;

verus! {

/// The text that a host value holds, if it is a text.
pub open spec fn text_of(t: TermView) -> Option<Seq<char>> {
    match t {
        TermView::Text(s) => Some(s),
        _ => None,
    }
}

/// The step of a call that reads one setting of a context: the call has one
/// argument, the handle; it waits while a writer holds the context, and
/// else answers with `reading` of the settings.
pub open spec fn read_step(
    state: Map<Handle, EntryView>,
    args: Seq<TermView>,
    reading: spec_fn(ContextView) -> TermView,
) -> Option<StepView> {
    if args.len() != 1 {
        None
    } else {
        match shared_access(state, args[0]) {
            Access::Bad => None,
            Access::Busy => Some(StepView::Wait),
            Access::Granted(handle) => Some(StepView::Reply(reading(state[handle].context))),
        }
    }
}

/// The step of a call that changes one setting of a context, and the
/// registry after it. The call has `arity` arguments, the first the handle;
/// `setting` is what the others decode to. A handle that stands for nothing
/// and arguments that decode to nothing are bad arguments, whoever holds
/// the lock; the call waits while anybody holds the context; else the
/// setting is made and the answer is `ok`. Nothing else changes, and nothing
/// at all unless the setting is made.
pub open spec fn change_step(
    state: Map<Handle, EntryView>,
    args: Seq<TermView>,
    arity: nat,
    setting: Option<SettingView>,
) -> (Option<StepView>, Map<Handle, EntryView>) {
    if args.len() != arity || arity < 1 {
        (None, state)
    } else {
        match (exclusive_access(state, args[0]), setting) {
            (Access::Bad, _) => (None, state),
            (_, None) => (None, state),
            (Access::Busy, Some(_)) => (Some(StepView::Wait), state),
            (Access::Granted(handle), Some(setting)) => (
                Some(StepView::Reply(ok_view())),
                state.insert(
                    handle,
                    with_context(state[handle], with_setting(state[handle].context, setting)),
                ),
            ),
        }
    }
}

/// The step of a call that makes the engine work on a context, and the
/// registry after it. The call has `arity` arguments, the first the handle;
/// `call` is the work that they decode to. A handle that stands for nothing
/// and arguments that decode to nothing are bad arguments, whoever holds
/// the lock; the call waits while the lock excludes it; else the lock is
/// taken, for writing if `exclusive` and for reading if not, and the work
/// is handed out. Nothing else changes.
pub open spec fn plan_step(
    state: Map<Handle, EntryView>,
    args: Seq<TermView>,
    arity: nat,
    exclusive: bool,
    call: Option<EngineCallView>,
) -> (Option<StepView>, Map<Handle, EntryView>) {
    if args.len() != arity || arity < 1 {
        (None, state)
    } else {
        let access = if exclusive {
            exclusive_access(state, args[0])
        } else {
            shared_access(state, args[0])
        };
        match (access, call) {
            (Access::Bad, _) => (None, state),
            (_, None) => (None, state),
            (Access::Busy, Some(_)) => (Some(StepView::Wait), state),
            (Access::Granted(handle), Some(call)) => (
                Some(StepView::Call(call)),
                state.insert(
                    handle,
                    if exclusive {
                        write_locked(state[handle])
                    } else {
                        read_locked(state[handle])
                    },
                ),
            ),
        }
    }
}

/// The context that a reading call is about: none while a writer holds it.
fn reader<'a>(registry: &'a Registry, args: &Vec<Term>) -> (r: Result<
    Option<&'a Context>,
    BridgeError,
>)
    requires
        args@.len() >= 1,
    ensures
        match shared_access(registry@, args@[0]@) {
            Access::Bad => r == Err::<Option<&Context>, BridgeError>(BridgeError::BadArgument),
            Access::Busy => r == Ok::<Option<&Context>, BridgeError>(None),
            Access::Granted(handle) => r is Ok && r->Ok_0 is Some && r->Ok_0->Some_0@
                == registry@[handle].context,
        },
{
    match registry.check_immutable(&args[0]) {
        Access::Bad => Err(BridgeError::BadArgument),
        Access::Busy => Ok(None),
        Access::Granted(handle) => match registry.get(handle) {
            Some(context) => Ok(Some(context)),
            None => Err(BridgeError::BadArgument),
        },
    }
}

/// Makes a setting on the context that a call is about.
fn change(registry: &mut Registry, args: &Vec<Term>, setting: Option<Setting>) -> (r: Result<
    Step,
    BridgeError,
>)
    requires
        old(registry).wf(),
        args@.len() >= 1,
    ensures
        final(registry).wf(),
        old(registry).outlived_by(*final(registry)),
        stepped(
            r,
            change_step(
                old(registry)@,
                views(args@),
                args@.len(),
                match setting {
                    Some(s) => Some(s@),
                    None => None,
                },
            ).0,
        ),
        final(registry)@ == change_step(
            old(registry)@,
            views(args@),
            args@.len(),
            match setting {
                Some(s) => Some(s@),
                None => None,
            },
        ).1,
{
    let access = registry.check_mutable(&args[0]);
    match access {
        Access::Bad => Err(BridgeError::BadArgument),
        Access::Busy => match setting {
            Some(_) => Ok(Step::Wait),
            None => Err(BridgeError::BadArgument),
        },
        Access::Granted(handle) => match setting {
            Some(setting) => match registry.update(handle, setting) {
                Ok(_) => Ok(Step::Reply(ok_reply())),
                Err(_) => Err(BridgeError::BadArgument),
            },
            None => Err(BridgeError::BadArgument),
        },
    }
}

/// Takes the lock for engine work on the context that a call is about, and
/// hands the work out.
fn plan(registry: &mut Registry, args: &Vec<Term>, exclusive: bool, call: Option<EngineCall>) -> (r:
    Result<Step, BridgeError>)
    requires
        old(registry).wf(),
        args@.len() >= 1,
    ensures
        final(registry).wf(),
        old(registry).outlived_by(*final(registry)),
        stepped(
            r,
            plan_step(
                old(registry)@,
                views(args@),
                args@.len(),
                exclusive,
                match call {
                    Some(c) => Some(c@),
                    None => None,
                },
            ).0,
        ),
        final(registry)@ == plan_step(
            old(registry)@,
            views(args@),
            args@.len(),
            exclusive,
            match call {
                Some(c) => Some(c@),
                None => None,
            },
        ).1,
{
    let access = if exclusive {
        registry.check_mutable(&args[0])
    } else {
        registry.check_immutable(&args[0])
    };
    match access {
        Access::Bad => Err(BridgeError::BadArgument),
        Access::Busy => match call {
            Some(_) => Ok(Step::Wait),
            None => Err(BridgeError::BadArgument),
        },
        Access::Granted(_) => match call {
            Some(call) => {
                if exclusive {
                    registry.unpack_mutable(&args[0]);
                } else {
                    registry.unpack_immutable(&args[0]);
                }
                Ok(Step::Call(call))
            },
            None => Err(BridgeError::BadArgument),
        },
    }
}

/// What `protocol` answers.
pub open spec fn protocol_model(state: Map<Handle, EntryView>, args: Seq<TermView>) -> Option<
    StepView,
> {
    read_step(state, args, |context: ContextView| protocol_term(context.protocol))
}

/// Answers with the protocol of a context.
pub fn protocol(registry: &Registry, args: &Vec<Term>) -> (r: Result<Step, BridgeError>)
    ensures
        stepped(r, protocol_model(registry@, views(args@))),
{
    if args.len() != 1 {
        return Err(BridgeError::BadArgument);
    }
    match reader(registry, args) {
        Ok(Some(context)) => Ok(Step::Reply(protocol_to_nif(context.protocol))),
        Ok(None) => Ok(Step::Wait),
        Err(_) => Err(BridgeError::BadArgument),
    }
}

/// What `armor?` answers.
pub open spec fn armor_model(state: Map<Handle, EntryView>, args: Seq<TermView>) -> Option<
    StepView,
> {
    read_step(state, args, |context: ContextView| bool_view(context.armor))
}

/// Answers whether a context writes its output in ASCII armor.
pub fn armor(registry: &Registry, args: &Vec<Term>) -> (r: Result<Step, BridgeError>)
    ensures
        stepped(r, armor_model(registry@, views(args@))),
{
    if args.len() != 1 {
        return Err(BridgeError::BadArgument);
    }
    match reader(registry, args) {
        Ok(Some(context)) => Ok(Step::Reply(Term::boolean(context.armor))),
        Ok(None) => Ok(Step::Wait),
        Err(_) => Err(BridgeError::BadArgument),
    }
}

/// What `text_mode?` answers.
pub open spec fn text_mode_model(state: Map<Handle, EntryView>, args: Seq<TermView>) -> Option<
    StepView,
> {
    read_step(state, args, |context: ContextView| bool_view(context.text_mode))
}

/// Answers whether a context treats its input as text.
pub fn text_mode(registry: &Registry, args: &Vec<Term>) -> (r: Result<Step, BridgeError>)
    ensures
        stepped(r, text_mode_model(registry@, views(args@))),
{
    if args.len() != 1 {
        return Err(BridgeError::BadArgument);
    }
    match reader(registry, args) {
        Ok(Some(context)) => Ok(Step::Reply(Term::boolean(context.text_mode))),
        Ok(None) => Ok(Step::Wait),
        Err(_) => Err(BridgeError::BadArgument),
    }
}

/// What `offline?` answers.
pub open spec fn offline_model(state: Map<Handle, EntryView>, args: Seq<TermView>) -> Option<
    StepView,
> {
    read_step(state, args, |context: ContextView| bool_view(context.offline))
}

/// Answers whether a context keeps off the network.
pub fn offline(registry: &Registry, args: &Vec<Term>) -> (r: Result<Step, BridgeError>)
    ensures
        stepped(r, offline_model(registry@, views(args@))),
{
    if args.len() != 1 {
        return Err(BridgeError::BadArgument);
    }
    match reader(registry, args) {
        Ok(Some(context)) => Ok(Step::Reply(Term::boolean(context.offline))),
        Ok(None) => Ok(Step::Wait),
        Err(_) => Err(BridgeError::BadArgument),
    }
}

/// What `pinentry_mode` answers.
pub open spec fn pinentry_mode_model(
    state: Map<Handle, EntryView>,
    args: Seq<TermView>,
) -> Option<StepView> {
    read_step(state, args, |context: ContextView| pinentry_mode_term(context.pinentry_mode))
}

/// Answers with the pinentry mode of a context.
pub fn pinentry_mode(registry: &Registry, args: &Vec<Term>) -> (r: Result<Step, BridgeError>)
    ensures
        stepped(r, pinentry_mode_model(registry@, views(args@))),
{
    if args.len() != 1 {
        return Err(BridgeError::BadArgument);
    }
    match reader(registry, args) {
        Ok(Some(context)) => Ok(Step::Reply(pinentry_mode_to_term(context.pinentry_mode))),
        Ok(None) => Ok(Step::Wait),
        Err(_) => Err(BridgeError::BadArgument),
    }
}

/// The reading of a flag that a host text for its name decodes to.
pub open spec fn get_flag_call(context: Handle, name: TermView) -> Option<EngineCallView> {
    match text_of(name) {
        Some(name) => Some(EngineCallView::GetFlag { context, name }),
        None => None,
    }
}

/// What `get_flag` does: the engine is asked for the flag that the second
/// argument names, under a shared hold.
pub open spec fn get_flag_model(state: Map<Handle, EntryView>, args: Seq<TermView>) -> (
    Option<StepView>,
    Map<Handle, EntryView>,
) {
    plan_step(state, args, 2, false, get_flag_call(handle_of(args[0]), args[1]))
}

/// Asks the engine of a context for the value of a named flag.
pub fn get_flag(registry: &mut Registry, args: &Vec<Term>) -> (r: Result<Step, BridgeError>)
    requires
        old(registry).wf(),
    ensures
        final(registry).wf(),
        old(registry).outlived_by(*final(registry)),
        stepped(r, get_flag_model(old(registry)@, views(args@)).0),
        final(registry)@ == get_flag_model(old(registry)@, views(args@)).1,
{
    if args.len() != 2 {
        return Err(BridgeError::BadArgument);
    }
    let call = match (args[0].decode_context(), args[1].decode_text()) {
        (Ok(context), Ok(name)) => Some(EngineCall::GetFlag { context, name }),
        _ => None,
    };
    plan(registry, args, false, call)
}

/// The making of a setting by the engine, where the arguments decode to
/// one.
pub open spec fn set_call(context: Handle, setting: Option<SettingView>) -> Option<
    EngineCallView,
> {
    match setting {
        Some(setting) => Some(EngineCallView::Configure { context, setting }),
        None => None,
    }
}

/// Hands a setting to the engine, which may refuse it. The context is held
/// for writing until the engine has answered.
fn propose(registry: &mut Registry, args: &Vec<Term>, setting: Option<Setting>) -> (r: Result<
    Step,
    BridgeError,
>)
    requires
        old(registry).wf(),
        args@.len() >= 1,
    ensures
        final(registry).wf(),
        old(registry).outlived_by(*final(registry)),
        stepped(
            r,
            plan_step(
                old(registry)@,
                views(args@),
                args@.len(),
                true,
                set_call(
                    handle_of(args@[0]@),
                    match setting {
                        Some(s) => Some(s@),
                        None => None,
                    },
                ),
            ).0,
        ),
        final(registry)@ == plan_step(
            old(registry)@,
            views(args@),
            args@.len(),
            true,
            set_call(
                handle_of(args@[0]@),
                match setting {
                    Some(s) => Some(s@),
                    None => None,
                },
            ),
        ).1,
{
    let call = match (args[0].decode_context(), setting) {
        (Ok(context), Some(setting)) => Some(EngineCall::Configure { context, setting }),
        _ => None,
    };
    plan(registry, args, true, call)
}

/// The registry after a setting was made on the context behind `handle`.
/// Nothing else changes, and nothing at all where the handle stands for
/// nothing.
pub open spec fn setting_made(
    state: Map<Handle, EntryView>,
    handle: Handle,
    setting: SettingView,
) -> Map<Handle, EntryView> {
    if state.dom().contains(handle) {
        state.insert(
            handle,
            with_context(state[handle], with_setting(state[handle].context, setting)),
        )
    } else {
        state
    }
}

/// Answers for a setting that was handed to the engine. Where the engine
/// made it, the registry keeps it too and the answer is `ok`; where the
/// engine refused, the answer is its description and the setting is not
/// made.
pub fn setting_reply(
    registry: &mut Registry,
    handle: Handle,
    setting: Setting,
    outcome: &Result<(), String>,
) -> (r: Term)
    requires
        old(registry).wf(),
    ensures
        final(registry).wf(),
        old(registry).outlived_by(*final(registry)),
        match *outcome {
            Ok(_) => r@ == ok_view() && final(registry)@ == setting_made(
                old(registry)@,
                handle,
                setting@,
            ),
            Err(description) => r@ == error_view(description@) && final(registry)@ == old(
                registry,
            )@,
        },
{
    match outcome {
        Ok(_) => {
            let _ = registry.update(handle, setting);
            ok_reply()
        },
        Err(description) => error_with(description.clone()),
    }
}

/// The setting that a host boolean decodes to.
pub open spec fn armor_setting(t: TermView) -> Option<SettingView> {
    match bool_of(t) {
        Some(yes) => Some(SettingView::Armor(yes)),
        None => None,
    }
}

/// What `set_armor` does.
pub open spec fn set_armor_model(state: Map<Handle, EntryView>, args: Seq<TermView>) -> (
    Option<StepView>,
    Map<Handle, EntryView>,
) {
    change_step(state, args, 2, armor_setting(args[1]))
}

/// Sets whether a context writes its output in ASCII armor.
pub fn set_armor(registry: &mut Registry, args: &Vec<Term>) -> (r: Result<Step, BridgeError>)
    requires
        old(registry).wf(),
    ensures
        final(registry).wf(),
        old(registry).outlived_by(*final(registry)),
        stepped(r, set_armor_model(old(registry)@, views(args@)).0),
        final(registry)@ == set_armor_model(old(registry)@, views(args@)).1,
{
    if args.len() != 2 {
        return Err(BridgeError::BadArgument);
    }
    let setting = match args[1].decode_bool() {
        Ok(yes) => Some(Setting::Armor(yes)),
        Err(_) => None,
    };
    change(registry, args, setting)
}

/// The setting that a host boolean decodes to.
pub open spec fn text_mode_setting(t: TermView) -> Option<SettingView> {
    match bool_of(t) {
        Some(yes) => Some(SettingView::TextMode(yes)),
        None => None,
    }
}

/// What `set_text_mode` does.
pub open spec fn set_text_mode_model(state: Map<Handle, EntryView>, args: Seq<TermView>) -> (
    Option<StepView>,
    Map<Handle, EntryView>,
) {
    change_step(state, args, 2, text_mode_setting(args[1]))
}

/// Sets whether a context treats its input as text.
pub fn set_text_mode(registry: &mut Registry, args: &Vec<Term>) -> (r: Result<Step, BridgeError>)
    requires
        old(registry).wf(),
    ensures
        final(registry).wf(),
        old(registry).outlived_by(*final(registry)),
        stepped(r, set_text_mode_model(old(registry)@, views(args@)).0),
        final(registry)@ == set_text_mode_model(old(registry)@, views(args@)).1,
{
    if args.len() != 2 {
        return Err(BridgeError::BadArgument);
    }
    let setting = match args[1].decode_bool() {
        Ok(yes) => Some(Setting::TextMode(yes)),
        Err(_) => None,
    };
    change(registry, args, setting)
}

/// The setting that a host boolean decodes to.
pub open spec fn offline_setting(t: TermView) -> Option<SettingView> {
    match bool_of(t) {
        Some(yes) => Some(SettingView::Offline(yes)),
        None => None,
    }
}

/// What `set_offline` does.
pub open spec fn set_offline_model(state: Map<Handle, EntryView>, args: Seq<TermView>) -> (
    Option<StepView>,
    Map<Handle, EntryView>,
) {
    change_step(state, args, 2, offline_setting(args[1]))
}

/// Sets whether a context keeps off the network.
pub fn set_offline(registry: &mut Registry, args: &Vec<Term>) -> (r: Result<Step, BridgeError>)
    requires
        old(registry).wf(),
    ensures
        final(registry).wf(),
        old(registry).outlived_by(*final(registry)),
        stepped(r, set_offline_model(old(registry)@, views(args@)).0),
        final(registry)@ == set_offline_model(old(registry)@, views(args@)).1,
{
    if args.len() != 2 {
        return Err(BridgeError::BadArgument);
    }
    let setting = match args[1].decode_bool() {
        Ok(yes) => Some(Setting::Offline(yes)),
        Err(_) => None,
    };
    change(registry, args, setting)
}

/// The setting that a host value decodes to.
pub open spec fn pinentry_mode_setting(t: TermView) -> Option<SettingView> {
    match term_pinentry_mode(t) {
        Some(mode) => Some(SettingView::PinentryMode(mode)),
        None => None,
    }
}

/// What `set_pinentry_mode` does: the mode is handed to the engine under an
/// exclusive hold.
pub open spec fn set_pinentry_mode_model(state: Map<Handle, EntryView>, args: Seq<TermView>) -> (
    Option<StepView>,
    Map<Handle, EntryView>,
) {
    plan_step(state, args, 2, true, set_call(handle_of(args[0]), pinentry_mode_setting(args[1])))
}

/// Asks the engine of a context to take a pinentry mode.
pub fn set_pinentry_mode(registry: &mut Registry, args: &Vec<Term>) -> (r: Result<
    Step,
    BridgeError,
>)
    requires
        old(registry).wf(),
    ensures
        final(registry).wf(),
        old(registry).outlived_by(*final(registry)),
        stepped(r, set_pinentry_mode_model(old(registry)@, views(args@)).0),
        final(registry)@ == set_pinentry_mode_model(old(registry)@, views(args@)).1,
{
    if args.len() != 2 {
        return Err(BridgeError::BadArgument);
    }
    let setting = match arg_to_pinentry_mode(&args[1]) {
        Ok(mode) => Some(Setting::PinentryMode(mode)),
        Err(_) => None,
    };
    propose(registry, args, setting)
}

/// The setting that a host text decodes to.
pub open spec fn engine_path_setting(t: TermView) -> Option<SettingView> {
    match text_of(t) {
        Some(path) => Some(SettingView::EnginePath(path)),
        None => None,
    }
}

/// What `set_engine_path` does: the path is handed to the engine under an
/// exclusive hold.
pub open spec fn set_engine_path_model(state: Map<Handle, EntryView>, args: Seq<TermView>) -> (
    Option<StepView>,
    Map<Handle, EntryView>,
) {
    plan_step(state, args, 2, true, set_call(handle_of(args[0]), engine_path_setting(args[1])))
}

/// Asks the engine of a context to run the program at a path.
pub fn set_engine_path(registry: &mut Registry, args: &Vec<Term>) -> (r: Result<
    Step,
    BridgeError,
>)
    requires
        old(registry).wf(),
    ensures
        final(registry).wf(),
        old(registry).outlived_by(*final(registry)),
        stepped(r, set_engine_path_model(old(registry)@, views(args@)).0),
        final(registry)@ == set_engine_path_model(old(registry)@, views(args@)).1,
{
    if args.len() != 2 {
        return Err(BridgeError::BadArgument);
    }
    let setting = match args[1].decode_text() {
        Ok(path) => Some(Setting::EnginePath(path)),
        Err(_) => None,
    };
    propose(registry, args, setting)
}

/// The setting that a host text decodes to.
pub open spec fn engine_home_dir_setting(t: TermView) -> Option<SettingView> {
    match text_of(t) {
        Some(home_dir) => Some(SettingView::EngineHomeDir(home_dir)),
        None => None,
    }
}

/// What `set_engine_home_dir` does: the directory is handed to the engine
/// under an exclusive hold.
pub open spec fn set_engine_home_dir_model(
    state: Map<Handle, EntryView>,
    args: Seq<TermView>,
) -> (Option<StepView>, Map<Handle, EntryView>) {
    plan_step(state, args, 2, true, set_call(handle_of(args[0]), engine_home_dir_setting(args[1])))
}

/// Asks the engine of a context to use a home directory.
pub fn set_engine_home_dir(registry: &mut Registry, args: &Vec<Term>) -> (r: Result<
    Step,
    BridgeError,
>)
    requires
        old(registry).wf(),
    ensures
        final(registry).wf(),
        old(registry).outlived_by(*final(registry)),
        stepped(r, set_engine_home_dir_model(old(registry)@, views(args@)).0),
        final(registry)@ == set_engine_home_dir_model(old(registry)@, views(args@)).1,
{
    if args.len() != 2 {
        return Err(BridgeError::BadArgument);
    }
    let setting = match args[1].decode_text() {
        Ok(home_dir) => Some(Setting::EngineHomeDir(home_dir)),
        Err(_) => None,
    };
    propose(registry, args, setting)
}

/// The setting that a host text for the name and one for the value decode
/// to.
pub open spec fn flag_setting(name: TermView, value: TermView) -> Option<SettingView> {
    match (text_of(name), text_of(value)) {
        (Some(name), Some(value)) => Some(SettingView::Flag(name, value)),
        _ => None,
    }
}

/// What `set_flag` does: the flag is handed to the engine under an exclusive
/// hold.
pub open spec fn set_flag_model(state: Map<Handle, EntryView>, args: Seq<TermView>) -> (
    Option<StepView>,
    Map<Handle, EntryView>,
) {
    plan_step(state, args, 3, true, set_call(handle_of(args[0]), flag_setting(args[1], args[2])))
}

/// Asks the engine of a context to set a named flag.
pub fn set_flag(registry: &mut Registry, args: &Vec<Term>) -> (r: Result<Step, BridgeError>)
    requires
        old(registry).wf(),
    ensures
        final(registry).wf(),
        old(registry).outlived_by(*final(registry)),
        stepped(r, set_flag_model(old(registry)@, views(args@)).0),
        final(registry)@ == set_flag_model(old(registry)@, views(args@)).1,
{
    if args.len() != 3 {
        return Err(BridgeError::BadArgument);
    }
    let setting = match args[1].decode_text() {
        Ok(name) => match args[2].decode_text() {
            Ok(value) => Some(Setting::Flag(name, value)),
            Err(_) => None,
        },
        Err(_) => None,
    };
    propose(registry, args, setting)
}

/// The handle that a host value carries. Of a value that carries none
/// nothing is known.
pub open spec fn handle_of(t: TermView) -> Handle {
    t->Context_0
}

/// The items of a host list, if it is one.
pub open spec fn items_of(t: TermView) -> Option<Seq<TermView>> {
    match t {
        TermView::List(items) => Some(items),
        _ => None,
    }
}

/// What `from_protocol` does: it hands out the opening of a session for the
/// protocol that its argument names.
pub open spec fn from_protocol_model(args: Seq<TermView>) -> Option<StepView> {
    if args.len() != 1 {
        None
    } else {
        match term_protocol(args[0]) {
            Some(protocol) => Some(StepView::Call(EngineCallView::Open { protocol })),
            None => None,
        }
    }
}

/// Asks for a new context for a protocol.
pub fn from_protocol(args: &Vec<Term>) -> (r: Result<Step, BridgeError>)
    ensures
        stepped(r, from_protocol_model(views(args@))),
{
    if args.len() != 1 {
        return Err(BridgeError::BadArgument);
    }
    match arg_to_protocol(&args[0]) {
        Ok(protocol) => Ok(Step::Call(EngineCall::Open { protocol })),
        Err(_) => Err(BridgeError::BadArgument),
    }
}

/// Answers for the opening of a session. Where the engine opened it, a
/// context with fresh settings comes under the registry's care and the
/// answer carries its handle; where it failed, the answer is its
/// description and the registry stays as it is.
pub fn from_protocol_reply(
    registry: &mut Registry,
    protocol: Protocol,
    outcome: &Result<(), String>,
) -> (r: Term)
    requires
        old(registry).wf(),
    ensures
        final(registry).wf(),
        old(registry).outlived_by(*final(registry)),
        match *outcome {
            Ok(_) => {
                let handle = old(registry).next_handle();
                &&& !old(registry)@.dom().contains(handle)
                &&& r@ == ok_with_view(TermView::Context(handle))
                &&& final(registry)@ == old(registry)@.insert(
                    handle,
                    fresh_entry(fresh_context(protocol)),
                )
            },
            Err(description) => r@ == error_view(description@) && final(registry)@ == old(
                registry,
            )@,
        },
{
    match outcome {
        Ok(_) => {
            let handle = wrap_context(registry, Context::new(protocol));
            ok_with(Term::Context(handle))
        },
        Err(description) => error_with(description.clone()),
    }
}

/// What `engine_info` does.
pub open spec fn engine_info_model(state: Map<Handle, EntryView>, args: Seq<TermView>) -> (
    Option<StepView>,
    Map<Handle, EntryView>,
) {
    plan_step(
        state,
        args,
        1,
        false,
        Some(EngineCallView::EngineInfo { context: handle_of(args[0]) }),
    )
}

/// Asks the engine of a context for its description.
pub fn engine_info(registry: &mut Registry, args: &Vec<Term>) -> (r: Result<Step, BridgeError>)
    requires
        old(registry).wf(),
    ensures
        final(registry).wf(),
        old(registry).outlived_by(*final(registry)),
        stepped(r, engine_info_model(old(registry)@, views(args@)).0),
        final(registry)@ == engine_info_model(old(registry)@, views(args@)).1,
{
    if args.len() != 1 {
        return Err(BridgeError::BadArgument);
    }
    let call = match args[0].decode_context() {
        Ok(context) => Some(EngineCall::EngineInfo { context }),
        Err(_) => None,
    };
    plan(registry, args, false, call)
}

/// The import that a host text decodes to.
pub open spec fn import_call(context: Handle, data: TermView) -> Option<EngineCallView> {
    match text_of(data) {
        Some(data) => Some(EngineCallView::Import { context, data }),
        None => None,
    }
}

/// What `import` does.
pub open spec fn import_model(state: Map<Handle, EntryView>, args: Seq<TermView>) -> (
    Option<StepView>,
    Map<Handle, EntryView>,
) {
    plan_step(state, args, 2, true, import_call(handle_of(args[0]), args[1]))
}

/// Asks for the import of keys into the keyring of a context.
pub fn import(registry: &mut Registry, args: &Vec<Term>) -> (r: Result<Step, BridgeError>)
    requires
        old(registry).wf(),
    ensures
        final(registry).wf(),
        old(registry).outlived_by(*final(registry)),
        stepped(r, import_model(old(registry)@, views(args@)).0),
        final(registry)@ == import_model(old(registry)@, views(args@)).1,
{
    if args.len() != 2 {
        return Err(BridgeError::BadArgument);
    }
    let call = match (args[0].decode_context(), args[1].decode_text()) {
        (Ok(context), Ok(data)) => Some(EngineCall::Import { context, data }),
        _ => None,
    };
    plan(registry, args, true, call)
}

/// The search that a host text decodes to.
pub open spec fn find_key_call(context: Handle, fingerprint: TermView) -> Option<EngineCallView> {
    match text_of(fingerprint) {
        Some(fingerprint) => Some(EngineCallView::FindKey { context, fingerprint }),
        None => None,
    }
}

/// What `find_key` does.
pub open spec fn find_key_model(state: Map<Handle, EntryView>, args: Seq<TermView>) -> (
    Option<StepView>,
    Map<Handle, EntryView>,
) {
    plan_step(state, args, 2, true, find_key_call(handle_of(args[0]), args[1]))
}

/// Asks for the key with a fingerprint.
pub fn find_key(registry: &mut Registry, args: &Vec<Term>) -> (r: Result<Step, BridgeError>)
    requires
        old(registry).wf(),
    ensures
        final(registry).wf(),
        old(registry).outlived_by(*final(registry)),
        stepped(r, find_key_model(old(registry)@, views(args@)).0),
        final(registry)@ == find_key_model(old(registry)@, views(args@)).1,
{
    if args.len() != 2 {
        return Err(BridgeError::BadArgument);
    }
    let call = match (args[0].decode_context(), args[1].decode_text()) {
        (Ok(context), Ok(fingerprint)) => Some(EngineCall::FindKey { context, fingerprint }),
        _ => None,
    };
    plan(registry, args, true, call)
}

/// The deletion that a key handle decodes to.
pub open spec fn delete_key_call(context: Handle, key: TermView) -> Option<EngineCallView> {
    match term_key(key) {
        Some(key) => Some(EngineCallView::DeleteKey { context, key }),
        None => None,
    }
}

/// What `delete_key` does.
pub open spec fn delete_key_model(state: Map<Handle, EntryView>, args: Seq<TermView>) -> (
    Option<StepView>,
    Map<Handle, EntryView>,
) {
    plan_step(state, args, 2, true, delete_key_call(handle_of(args[0]), args[1]))
}

/// Asks for the deletion of a public key.
pub fn delete_key(registry: &mut Registry, args: &Vec<Term>) -> (r: Result<Step, BridgeError>)
    requires
        old(registry).wf(),
    ensures
        final(registry).wf(),
        old(registry).outlived_by(*final(registry)),
        stepped(r, delete_key_model(old(registry)@, views(args@)).0),
        final(registry)@ == delete_key_model(old(registry)@, views(args@)).1,
{
    if args.len() != 2 {
        return Err(BridgeError::BadArgument);
    }
    let call = match (args[0].decode_context(), args[1].decode_key()) {
        (Ok(context), Ok(key)) => Some(EngineCall::DeleteKey { context, key }),
        _ => None,
    };
    plan(registry, args, true, call)
}

/// The deletion that a key handle decodes to.
pub open spec fn delete_secret_key_call(context: Handle, key: TermView) -> Option<
    EngineCallView,
> {
    match term_key(key) {
        Some(key) => Some(EngineCallView::DeleteSecretKey { context, key }),
        None => None,
    }
}

/// What `delete_secret_key` does.
pub open spec fn delete_secret_key_model(state: Map<Handle, EntryView>, args: Seq<TermView>) -> (
    Option<StepView>,
    Map<Handle, EntryView>,
) {
    plan_step(state, args, 2, true, delete_secret_key_call(handle_of(args[0]), args[1]))
}

/// Asks for the deletion of a key with its secret part.
pub fn delete_secret_key(registry: &mut Registry, args: &Vec<Term>) -> (r: Result<
    Step,
    BridgeError,
>)
    requires
        old(registry).wf(),
    ensures
        final(registry).wf(),
        old(registry).outlived_by(*final(registry)),
        stepped(r, delete_secret_key_model(old(registry)@, views(args@)).0),
        final(registry)@ == delete_secret_key_model(old(registry)@, views(args@)).1,
{
    if args.len() != 2 {
        return Err(BridgeError::BadArgument);
    }
    let call = match (args[0].decode_context(), args[1].decode_key()) {
        (Ok(context), Ok(key)) => Some(EngineCall::DeleteSecretKey { context, key }),
        _ => None,
    };
    plan(registry, args, true, call)
}

/// The decryption that a host text decodes to.
pub open spec fn decrypt_call(context: Handle, cyphertext: TermView) -> Option<EngineCallView> {
    match text_of(cyphertext) {
        Some(cyphertext) => Some(EngineCallView::Decrypt { context, cyphertext }),
        None => None,
    }
}

/// What `decrypt` does.
pub open spec fn decrypt_model(state: Map<Handle, EntryView>, args: Seq<TermView>) -> (
    Option<StepView>,
    Map<Handle, EntryView>,
) {
    plan_step(state, args, 2, true, decrypt_call(handle_of(args[0]), args[1]))
}

/// Asks for the decryption of a message.
pub fn decrypt(registry: &mut Registry, args: &Vec<Term>) -> (r: Result<Step, BridgeError>)
    requires
        old(registry).wf(),
    ensures
        final(registry).wf(),
        old(registry).outlived_by(*final(registry)),
        stepped(r, decrypt_model(old(registry)@, views(args@)).0),
        final(registry)@ == decrypt_model(old(registry)@, views(args@)).1,
{
    if args.len() != 2 {
        return Err(BridgeError::BadArgument);
    }
    let call = match (args[0].decode_context(), args[1].decode_text()) {
        (Ok(context), Ok(cyphertext)) => Some(EngineCall::Decrypt { context, cyphertext }),
        _ => None,
    };
    plan(registry, args, true, call)
}

/// What the arguments of an encryption decode to: the recipients, of whom
/// there is at least one, the data, and the options.
pub open spec fn encryption_of(recipients: TermView, data: TermView, flags: TermView) -> Option<
    (Seq<KeyResource>, Seq<char>, Set<EncryptFlag>),
> {
    match (key_list(recipients), text_of(data), items_of(flags)) {
        (Some(recipients), Some(data), Some(items)) => {
            if recipients.len() >= 1 {
                match flag_set(items) {
                    Some(flags) => Some((recipients, data, flags)),
                    None => None,
                }
            } else {
                None
            }
        },
        _ => None,
    }
}

/// Reads the arguments of an encryption.
fn decode_encryption(recipients: &Term, data: &Term, flags: &Term) -> (r: Option<
    (Vec<KeyResource>, String, EncryptFlags),
>)
    ensures
        match encryption_of(recipients@, data@, flags@) {
            Some(encryption) => r is Some && r->Some_0.0@ == encryption.0 && r->Some_0.1@
                == encryption.1 && r->Some_0.2@ == encryption.2,
            None => r is None,
        },
{
    let recipients = match unpack_key_list(recipients) {
        Ok(recipients) => recipients,
        Err(_) => {
            return None;
        },
    };
    match keys_not_empty(recipients.len()) {
        Ok(_) => {},
        Err(_) => {
            return None;
        },
    }
    let data = match data.decode_text() {
        Ok(data) => data,
        Err(_) => {
            return None;
        },
    };
    let items = match flags.decode_list() {
        Ok(items) => items,
        Err(_) => {
            return None;
        },
    };
    let flags = match encrypt_flags::arg_to_protocol(items) {
        Ok(flags) => flags,
        Err(_) => {
            return None;
        },
    };
    Some((recipients, data, flags))
}

/// The encryption that the arguments decode to.
pub open spec fn encrypt_call(
    context: Handle,
    recipients: TermView,
    data: TermView,
    flags: TermView,
) -> Option<EngineCallView> {
    match encryption_of(recipients, data, flags) {
        Some(encryption) => Some(
            EngineCallView::Encrypt {
                context,
                recipients: encryption.0,
                data: encryption.1,
                flags: encryption.2,
            },
        ),
        None => None,
    }
}

/// What `encrypt_with_flags` does.
pub open spec fn encrypt_with_flags_model(state: Map<Handle, EntryView>, args: Seq<TermView>) -> (
    Option<StepView>,
    Map<Handle, EntryView>,
) {
    plan_step(state, args, 4, true, encrypt_call(handle_of(args[0]), args[1], args[2], args[3]))
}

/// Asks for the encryption of data to a list of recipients, which must not
/// be empty.
pub fn encrypt_with_flags(registry: &mut Registry, args: &Vec<Term>) -> (r: Result<
    Step,
    BridgeError,
>)
    requires
        old(registry).wf(),
    ensures
        final(registry).wf(),
        old(registry).outlived_by(*final(registry)),
        stepped(r, encrypt_with_flags_model(old(registry)@, views(args@)).0),
        final(registry)@ == encrypt_with_flags_model(old(registry)@, views(args@)).1,
{
    if args.len() != 4 {
        return Err(BridgeError::BadArgument);
    }
    let call = match (args[0].decode_context(), decode_encryption(&args[1], &args[2], &args[3])) {
        (Ok(context), Some((recipients, data, flags))) => Some(
            EngineCall::Encrypt { context, recipients, data, flags },
        ),
        _ => None,
    };
    plan(registry, args, true, call)
}

/// The signing and encryption that the arguments decode to.
pub open spec fn sign_and_encrypt_call(
    context: Handle,
    recipients: TermView,
    data: TermView,
    flags: TermView,
) -> Option<EngineCallView> {
    match encryption_of(recipients, data, flags) {
        Some(encryption) => Some(
            EngineCallView::SignAndEncrypt {
                context,
                recipients: encryption.0,
                data: encryption.1,
                flags: encryption.2,
            },
        ),
        None => None,
    }
}

/// What `sign_and_encrypt_with_flags` does.
pub open spec fn sign_and_encrypt_with_flags_model(
    state: Map<Handle, EntryView>,
    args: Seq<TermView>,
) -> (Option<StepView>, Map<Handle, EntryView>) {
    plan_step(
        state,
        args,
        4,
        true,
        sign_and_encrypt_call(handle_of(args[0]), args[1], args[2], args[3]),
    )
}

/// Asks for the signing of data and its encryption to a list of recipients,
/// which must not be empty.
pub fn sign_and_encrypt_with_flags(registry: &mut Registry, args: &Vec<Term>) -> (r: Result<
    Step,
    BridgeError,
>)
    requires
        old(registry).wf(),
    ensures
        final(registry).wf(),
        old(registry).outlived_by(*final(registry)),
        stepped(r, sign_and_encrypt_with_flags_model(old(registry)@, views(args@)).0),
        final(registry)@ == sign_and_encrypt_with_flags_model(old(registry)@, views(args@)).1,
{
    if args.len() != 4 {
        return Err(BridgeError::BadArgument);
    }
    let call = match (args[0].decode_context(), decode_encryption(&args[1], &args[2], &args[3])) {
        (Ok(context), Some((recipients, data, flags))) => Some(
            EngineCall::SignAndEncrypt { context, recipients, data, flags },
        ),
        _ => None,
    };
    plan(registry, args, true, call)
}

/// The signing that a mode and a host text decode to.
pub open spec fn sign_call(context: Handle, mode: TermView, data: TermView) -> Option<
    EngineCallView,
> {
    match (term_sign_mode(mode), text_of(data)) {
        (Some(mode), Some(data)) => Some(EngineCallView::Sign { context, mode, data }),
        _ => None,
    }
}

/// What `sign_with_mode` does.
pub open spec fn sign_with_mode_model(state: Map<Handle, EntryView>, args: Seq<TermView>) -> (
    Option<StepView>,
    Map<Handle, EntryView>,
) {
    plan_step(state, args, 3, true, sign_call(handle_of(args[0]), args[1], args[2]))
}

/// Asks for the signing of data in a mode.
pub fn sign_with_mode(registry: &mut Registry, args: &Vec<Term>) -> (r: Result<Step, BridgeError>)
    requires
        old(registry).wf(),
    ensures
        final(registry).wf(),
        old(registry).outlived_by(*final(registry)),
        stepped(r, sign_with_mode_model(old(registry)@, views(args@)).0),
        final(registry)@ == sign_with_mode_model(old(registry)@, views(args@)).1,
{
    if args.len() != 3 {
        return Err(BridgeError::BadArgument);
    }
    let call = match (
        args[0].decode_context(),
        arg_to_sign_mode(&args[1]),
        args[2].decode_text(),
    ) {
        (Ok(context), Ok(mode), Ok(data)) => Some(EngineCall::Sign { context, mode, data }),
        _ => None,
    };
    plan(registry, args, true, call)
}

/// The verification that two host texts decode to.
pub open spec fn verify_opaque_call(context: Handle, signature: TermView, data: TermView) -> Option<
    EngineCallView,
> {
    match (text_of(signature), text_of(data)) {
        (Some(signature), Some(data)) => Some(
            EngineCallView::VerifyOpaque { context, signature, data },
        ),
        _ => None,
    }
}

/// What `verify_opaque` does.
pub open spec fn verify_opaque_model(state: Map<Handle, EntryView>, args: Seq<TermView>) -> (
    Option<StepView>,
    Map<Handle, EntryView>,
) {
    plan_step(state, args, 3, true, verify_opaque_call(handle_of(args[0]), args[1], args[2]))
}

/// Asks for the verification of a signature over data.
pub fn verify_opaque(registry: &mut Registry, args: &Vec<Term>) -> (r: Result<Step, BridgeError>)
    requires
        old(registry).wf(),
    ensures
        final(registry).wf(),
        old(registry).outlived_by(*final(registry)),
        stepped(r, verify_opaque_model(old(registry)@, views(args@)).0),
        final(registry)@ == verify_opaque_model(old(registry)@, views(args@)).1,
{
    if args.len() != 3 {
        return Err(BridgeError::BadArgument);
    }
    let call = match (args[0].decode_context(), args[1].decode_text(), args[2].decode_text()) {
        (Ok(context), Ok(signature), Ok(data)) => Some(
            EngineCall::VerifyOpaque { context, signature, data },
        ),
        _ => None,
    };
    plan(registry, args, true, call)
}

/// Gives back the lock that a call held while the engine worked. A hold on
/// a context that is gone, or whose lock is not held that way, is a bad
/// argument and changes nothing.
pub fn finish(registry: &mut Registry, hold: Hold) -> (r: Result<(), BridgeError>)
    requires
        old(registry).wf(),
    ensures
        final(registry).wf(),
        old(registry).outlived_by(*final(registry)),
        match hold {
            Hold::Nothing => r is Ok && final(registry)@ == old(registry)@,
            Hold::Shared(handle) => {
                if old(registry)@.dom().contains(handle) && old(registry)@[handle].readers > 0 {
                    &&& r is Ok
                    &&& final(registry)@ == old(registry)@.insert(
                        handle,
                        EntryView {
                            readers: (old(registry)@[handle].readers - 1) as nat,
                            ..old(registry)@[handle]
                        },
                    )
                } else {
                    r == Err::<(), BridgeError>(BridgeError::BadArgument) && final(registry)@
                        == old(registry)@
                }
            },
            Hold::Exclusive(handle) => {
                if old(registry)@.dom().contains(handle) && old(registry)@[handle].writer {
                    &&& r is Ok
                    &&& final(registry)@ == old(registry)@.insert(
                        handle,
                        EntryView { writer: false, ..old(registry)@[handle] },
                    )
                } else {
                    r == Err::<(), BridgeError>(BridgeError::BadArgument) && final(registry)@
                        == old(registry)@
                }
            },
        },
{
    match hold {
        Hold::Nothing => Ok(()),
        Hold::Shared(handle) => match registry.release_immutable(handle) {
            Ok(_) => Ok(()),
            Err(_) => Err(BridgeError::BadArgument),
        },
        Hold::Exclusive(handle) => match registry.release_mutable(handle) {
            Ok(_) => Ok(()),
            Err(_) => Err(BridgeError::BadArgument),
        },
    }
}

} // verus!
