use vstd::prelude::*;
use vstd::utf8::{decode_utf8, valid_utf8};
use crate::context::helpers::{flag_view, not_set_view, ok_view, ok_with_view};
use crate::context::resource::{
    exclusive_access,
    shared_access,
    write_locked,
    Access,
    EntryView,
    Handle,
};
use crate::context::session::{ContextView, SettingView};
use crate::context::step::{EngineCallView, StepView};
use crate::context::{
    armor_model,
    change_step,
    encrypt_with_flags_model,
    get_flag_model,
    offline_model,
    pinentry_mode_model,
    plan_step,
    read_step,
    set_armor_model,
    set_flag_model,
    set_offline_model,
    set_pinentry_mode_model,
    set_text_mode_model,
    setting_made,
    sign_and_encrypt_with_flags_model,
    text_mode_model,
};
use crate::pinentry_mode::{lemma_pinentry_mode_round_trip, pinentry_mode_term, PinentryMode};
use crate::term::{bool_view, lemma_bool_of, TermView};

verus! {

/// After `set_armor` with a boolean, `armor?` answers that boolean, and
/// `text_mode?` and `offline?` answer what they answered before.
pub proof fn lemma_set_armor_then_armor(state: Map<Handle, EntryView>, handle: Handle, yes: bool)
    requires
        exclusive_access(state, TermView::Context(handle)) == Access::Granted(handle),
    ensures
        ({
            let target = TermView::Context(handle);
            let set = set_armor_model(state, seq![target, bool_view(yes)]);
            &&& set.0 == Some(StepView::Reply(ok_view()))
            &&& armor_model(set.1, seq![target]) == Some(StepView::Reply(bool_view(yes)))
            &&& text_mode_model(set.1, seq![target]) == text_mode_model(state, seq![target])
            &&& offline_model(set.1, seq![target]) == offline_model(state, seq![target])
        }),
{
    lemma_bool_of(yes);
}

/// After `set_text_mode` with a boolean, `text_mode?` answers that boolean,
/// and `armor?` and `offline?` answer what they answered before.
pub proof fn lemma_set_text_mode_then_text_mode(
    state: Map<Handle, EntryView>,
    handle: Handle,
    yes: bool,
)
    requires
        exclusive_access(state, TermView::Context(handle)) == Access::Granted(handle),
    ensures
        ({
            let target = TermView::Context(handle);
            let set = set_text_mode_model(state, seq![target, bool_view(yes)]);
            &&& set.0 == Some(StepView::Reply(ok_view()))
            &&& text_mode_model(set.1, seq![target]) == Some(StepView::Reply(bool_view(yes)))
            &&& armor_model(set.1, seq![target]) == armor_model(state, seq![target])
            &&& offline_model(set.1, seq![target]) == offline_model(state, seq![target])
        }),
{
    lemma_bool_of(yes);
}

/// After `set_offline` with a boolean, `offline?` answers that boolean, and
/// `armor?` and `text_mode?` answer what they answered before.
pub proof fn lemma_set_offline_then_offline(
    state: Map<Handle, EntryView>,
    handle: Handle,
    yes: bool,
)
    requires
        exclusive_access(state, TermView::Context(handle)) == Access::Granted(handle),
    ensures
        ({
            let target = TermView::Context(handle);
            let set = set_offline_model(state, seq![target, bool_view(yes)]);
            &&& set.0 == Some(StepView::Reply(ok_view()))
            &&& offline_model(set.1, seq![target]) == Some(StepView::Reply(bool_view(yes)))
            &&& armor_model(set.1, seq![target]) == armor_model(state, seq![target])
            &&& text_mode_model(set.1, seq![target]) == text_mode_model(state, seq![target])
        }),
{
    lemma_bool_of(yes);
}

/// After `set_flag` with a name and a value that the engine took, the
/// registry keeps that value for the name. `get_flag` with that name then
/// asks the engine for it, and where the engine reports the value that was
/// set, the answer is `ok` with that value.
pub proof fn lemma_set_flag_then_get_flag(
    state: Map<Handle, EntryView>,
    handle: Handle,
    name: Seq<char>,
    value: Seq<char>,
    reported: Vec<u8>,
)
    requires
        exclusive_access(state, TermView::Context(handle)) == Access::Granted(handle),
        valid_utf8(reported@),
        decode_utf8(reported@) == value,
    ensures
        ({
            let target = TermView::Context(handle);
            let flag = SettingView::Flag(name, value);
            let set = set_flag_model(
                state,
                seq![target, TermView::Text(name), TermView::Text(value)],
            );
            let held = state.insert(handle, write_locked(state[handle]));
            let kept = setting_made(held, handle, flag);
            let free = kept.insert(handle, EntryView { writer: false, ..kept[handle] });
            let get = get_flag_model(free, seq![target, TermView::Text(name)]);
            &&& set.0 == Some(
                StepView::Call(EngineCallView::Configure { context: handle, setting: flag }),
            )
            &&& set.1 == held
            &&& kept[handle].context.flags.dom().contains(name)
            &&& kept[handle].context.flags[name] == value
            &&& get.0 == Some(StepView::Call(EngineCallView::GetFlag { context: handle, name }))
            &&& flag_view(Some(reported)) == ok_with_view(TermView::Text(value))
        }),
{
}

/// `get_flag` asks the engine for the flag, and where the engine has no
/// value for it, the answer is that it is not set.
pub proof fn lemma_get_flag_not_set(state: Map<Handle, EntryView>, handle: Handle, name: Seq<char>)
    requires
        shared_access(state, TermView::Context(handle)) == Access::Granted(handle),
    ensures
        get_flag_model(state, seq![TermView::Context(handle), TermView::Text(name)]).0 == Some(
            StepView::Call(EngineCallView::GetFlag { context: handle, name }),
        ),
        flag_view(None) == not_set_view(),
{
}

/// After `set_pinentry_mode` with a mode that the engine took,
/// `pinentry_mode` answers that mode.
pub proof fn lemma_set_pinentry_mode_then_pinentry_mode(
    state: Map<Handle, EntryView>,
    handle: Handle,
    mode: PinentryMode,
)
    requires
        exclusive_access(state, TermView::Context(handle)) == Access::Granted(handle),
    ensures
        ({
            let target = TermView::Context(handle);
            let setting = SettingView::PinentryMode(mode);
            let set = set_pinentry_mode_model(state, seq![target, pinentry_mode_term(mode)]);
            let held = state.insert(handle, write_locked(state[handle]));
            let kept = setting_made(held, handle, setting);
            let free = kept.insert(handle, EntryView { writer: false, ..kept[handle] });
            &&& set.0 == Some(
                StepView::Call(EngineCallView::Configure { context: handle, setting }),
            )
            &&& set.1 == held
            &&& pinentry_mode_model(free, seq![target]) == Some(
                StepView::Reply(pinentry_mode_term(mode)),
            )
        }),
{
    lemma_pinentry_mode_round_trip(mode);
}

/// Taking a context for writing shuts everybody else out: until the lock is
/// given back, neither shared nor exclusive access to it is granted.
pub proof fn lemma_writer_excludes(state: Map<Handle, EntryView>, handle: Handle)
    requires
        exclusive_access(state, TermView::Context(handle)) == Access::Granted(handle),
    ensures
        ({
            let held = state.insert(handle, write_locked(state[handle]));
            &&& exclusive_access(held, TermView::Context(handle)) == Access::Busy
            &&& shared_access(held, TermView::Context(handle)) == Access::Busy
        }),
{
}

/// When a writer gives the lock back, the next one gets in, and finds the
/// settings as the writer left them.
pub proof fn lemma_release_lets_the_next_in(state: Map<Handle, EntryView>, handle: Handle)
    requires
        state.dom().contains(handle),
        state[handle].writer,
        state[handle].readers == 0,
    ensures
        ({
            let free = state.insert(handle, EntryView { writer: false, ..state[handle] });
            &&& exclusive_access(free, TermView::Context(handle)) == Access::Granted(handle)
            &&& shared_access(free, TermView::Context(handle)) == Access::Granted(handle)
            &&& free[handle].context == state[handle].context
        }),
{
}

/// While a writer holds a context, no call on it reads, changes or hands
/// out anything: each is turned away or waits, and the registry stays as
/// it is. So what one writer does is never mixed with what another does.
pub proof fn lemma_held_context_is_left_alone(
    state: Map<Handle, EntryView>,
    args: Seq<TermView>,
    arity: nat,
    reading: spec_fn(ContextView) -> TermView,
    setting: Option<SettingView>,
    exclusive: bool,
    call: Option<EngineCallView>,
)
    requires
        args.len() >= 1,
        args[0] is Context,
        state.dom().contains(args[0]->Context_0),
        state[args[0]->Context_0].writer,
    ensures
        read_step(state, args, reading) is None || read_step(state, args, reading) == Some(
            StepView::Wait,
        ),
        change_step(state, args, arity, setting).1 == state,
        change_step(state, args, arity, setting).0 is None || change_step(
            state,
            args,
            arity,
            setting,
        ).0 == Some(StepView::Wait),
        plan_step(state, args, arity, exclusive, call).1 == state,
        plan_step(state, args, arity, exclusive, call).0 is None || plan_step(
            state,
            args,
            arity,
            exclusive,
            call,
        ).0 == Some(StepView::Wait),
{
}

/// An encryption without recipients is a bad argument, whatever else is
/// asked and whatever state the registry is in: no work is handed out for
/// the engine, no lock is taken, nothing changes.
pub proof fn lemma_encrypt_needs_recipients(state: Map<Handle, EntryView>, args: Seq<TermView>)
    requires
        args.len() >= 2 ==> args[1] == TermView::List(Seq::<TermView>::empty()),
    ensures
        encrypt_with_flags_model(state, args) == (None::<StepView>, state),
        sign_and_encrypt_with_flags_model(state, args) == (None::<StepView>, state),
{
}

/// A call through something that is no handle of a context in the registry
/// is a bad argument and changes nothing: a handle whose context has gone,
/// the handle of another kind of thing, or any other value.
pub proof fn lemma_stale_handle_is_bad_argument(
    state: Map<Handle, EntryView>,
    args: Seq<TermView>,
    arity: nat,
    reading: spec_fn(ContextView) -> TermView,
    setting: Option<SettingView>,
    exclusive: bool,
    call: Option<EngineCallView>,
)
    requires
        args.len() >= 1,
        args[0] is Context ==> !state.dom().contains(args[0]->Context_0),
    ensures
        shared_access(state, args[0]) == Access::Bad,
        exclusive_access(state, args[0]) == Access::Bad,
        read_step(state, args, reading) is None,
        change_step(state, args, arity, setting) == (None::<StepView>, state),
        plan_step(state, args, arity, exclusive, call) == (None::<StepView>, state),
{
}

} // verus!
