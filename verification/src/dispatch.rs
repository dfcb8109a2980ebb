use vstd::prelude::*;
use vstd::string::StringExecFns;
use crate::context;
use crate::context::resource::{EntryView, Handle, Registry};
use crate::context::step::{stepped, Step, StepView};
use crate::error::BridgeError;
use crate::term::{is_tag, views, Term, TermView};

verus! {

/// The operations that the host can call.
#[derive(Clone, Copy, Debug, PartialEq, Eq, Structural)]
pub enum Operation {
    FromProtocol,
    Protocol,
    Armor,
    SetArmor,
    TextMode,
    SetTextMode,
    Offline,
    SetOffline,
    GetFlag,
    SetFlag,
    EngineInfo,
    SetEnginePath,
    SetEngineHomeDir,
    PinentryMode,
    SetPinentryMode,
    Import,
    FindKey,
    DeleteKey,
    DeleteSecretKey,
    Decrypt,
    EncryptWithFlags,
    SignAndEncryptWithFlags,
    SignWithMode,
    VerifyOpaque,
}

/// Where an operation runs.
#[derive(Clone, Copy, Debug, PartialEq, Eq, Structural)]
pub enum Schedule {
    /// Inline: it is done in microseconds.
    Interactive,
    /// On the workers for long-running native work: the engine may read,
    /// write, or talk to another process.
    Blocking,
}

/// One row of the table of operations.
#[derive(Clone, Copy, Debug, PartialEq, Eq, Structural)]
pub struct Command {
    pub operation: Operation,
    pub arity: usize,
    pub schedule: Schedule,
}

/// The name by which the host calls an operation.
pub open spec fn name_of(operation: Operation) -> Seq<char> {
    match operation {
        Operation::FromProtocol => "from_protocol"@,
        Operation::Protocol => "protocol"@,
        Operation::Armor => "armor?"@,
        Operation::SetArmor => "set_armor"@,
        Operation::TextMode => "text_mode?"@,
        Operation::SetTextMode => "set_text_mode"@,
        Operation::Offline => "offline?"@,
        Operation::SetOffline => "set_offline"@,
        Operation::GetFlag => "get_flag"@,
        Operation::SetFlag => "set_flag"@,
        Operation::EngineInfo => "engine_info"@,
        Operation::SetEnginePath => "set_engine_path"@,
        Operation::SetEngineHomeDir => "set_engine_home_dir"@,
        Operation::PinentryMode => "pinentry_mode"@,
        Operation::SetPinentryMode => "set_pinentry_mode"@,
        Operation::Import => "import"@,
        Operation::FindKey => "find_key"@,
        Operation::DeleteKey => "delete_key"@,
        Operation::DeleteSecretKey => "delete_secret_key"@,
        Operation::Decrypt => "decrypt"@,
        Operation::EncryptWithFlags => "encrypt_with_flags"@,
        Operation::SignAndEncryptWithFlags => "sign_and_encrypt_with_flags"@,
        Operation::SignWithMode => "sign_with_mode"@,
        Operation::VerifyOpaque => "verify_opaque"@,
    }
}

/// The number of arguments that an operation takes.
pub open spec fn arity_of(operation: Operation) -> nat {
    match operation {
        Operation::FromProtocol => 1,
        Operation::Protocol => 1,
        Operation::Armor => 1,
        Operation::SetArmor => 2,
        Operation::TextMode => 1,
        Operation::SetTextMode => 2,
        Operation::Offline => 1,
        Operation::SetOffline => 2,
        Operation::GetFlag => 2,
        Operation::SetFlag => 3,
        Operation::EngineInfo => 1,
        Operation::SetEnginePath => 2,
        Operation::SetEngineHomeDir => 2,
        Operation::PinentryMode => 1,
        Operation::SetPinentryMode => 2,
        Operation::Import => 2,
        Operation::FindKey => 2,
        Operation::DeleteKey => 2,
        Operation::DeleteSecretKey => 2,
        Operation::Decrypt => 2,
        Operation::EncryptWithFlags => 4,
        Operation::SignAndEncryptWithFlags => 4,
        Operation::SignWithMode => 3,
        Operation::VerifyOpaque => 3,
    }
}

/// Where an operation runs: whatever may keep the engine busy is blocking.
pub open spec fn schedule_of(operation: Operation) -> Schedule {
    match operation {
        Operation::FromProtocol => Schedule::Interactive,
        Operation::Protocol => Schedule::Interactive,
        Operation::Armor => Schedule::Interactive,
        Operation::SetArmor => Schedule::Interactive,
        Operation::TextMode => Schedule::Interactive,
        Operation::SetTextMode => Schedule::Interactive,
        Operation::Offline => Schedule::Interactive,
        Operation::SetOffline => Schedule::Interactive,
        Operation::GetFlag => Schedule::Interactive,
        Operation::SetFlag => Schedule::Interactive,
        Operation::EngineInfo => Schedule::Interactive,
        Operation::SetEnginePath => Schedule::Interactive,
        Operation::SetEngineHomeDir => Schedule::Interactive,
        Operation::PinentryMode => Schedule::Interactive,
        Operation::SetPinentryMode => Schedule::Interactive,
        Operation::Import => Schedule::Blocking,
        Operation::FindKey => Schedule::Blocking,
        Operation::DeleteKey => Schedule::Blocking,
        Operation::DeleteSecretKey => Schedule::Blocking,
        Operation::Decrypt => Schedule::Blocking,
        Operation::EncryptWithFlags => Schedule::Blocking,
        Operation::SignAndEncryptWithFlags => Schedule::Blocking,
        Operation::SignWithMode => Schedule::Blocking,
        Operation::VerifyOpaque => Schedule::Blocking,
    }
}

/// The row of an operation.
pub open spec fn command_of(operation: Operation) -> Command {
    Command {
        operation,
        arity: arity_of(operation) as usize,
        schedule: schedule_of(operation),
    }
}

/// The operation that a name stands for, if any.
pub open spec fn operation_named(name: Seq<char>) -> Option<Operation> {
    if name == "from_protocol"@ {
        Some(Operation::FromProtocol)
    } else if name == "protocol"@ {
        Some(Operation::Protocol)
    } else if name == "armor?"@ {
        Some(Operation::Armor)
    } else if name == "set_armor"@ {
        Some(Operation::SetArmor)
    } else if name == "text_mode?"@ {
        Some(Operation::TextMode)
    } else if name == "set_text_mode"@ {
        Some(Operation::SetTextMode)
    } else if name == "offline?"@ {
        Some(Operation::Offline)
    } else if name == "set_offline"@ {
        Some(Operation::SetOffline)
    } else if name == "get_flag"@ {
        Some(Operation::GetFlag)
    } else if name == "set_flag"@ {
        Some(Operation::SetFlag)
    } else if name == "engine_info"@ {
        Some(Operation::EngineInfo)
    } else if name == "set_engine_path"@ {
        Some(Operation::SetEnginePath)
    } else if name == "set_engine_home_dir"@ {
        Some(Operation::SetEngineHomeDir)
    } else if name == "pinentry_mode"@ {
        Some(Operation::PinentryMode)
    } else if name == "set_pinentry_mode"@ {
        Some(Operation::SetPinentryMode)
    } else if name == "import"@ {
        Some(Operation::Import)
    } else if name == "find_key"@ {
        Some(Operation::FindKey)
    } else if name == "delete_key"@ {
        Some(Operation::DeleteKey)
    } else if name == "delete_secret_key"@ {
        Some(Operation::DeleteSecretKey)
    } else if name == "decrypt"@ {
        Some(Operation::Decrypt)
    } else if name == "encrypt_with_flags"@ {
        Some(Operation::EncryptWithFlags)
    } else if name == "sign_and_encrypt_with_flags"@ {
        Some(Operation::SignAndEncryptWithFlags)
    } else if name == "sign_with_mode"@ {
        Some(Operation::SignWithMode)
    } else if name == "verify_opaque"@ {
        Some(Operation::VerifyOpaque)
    } else {
        None
    }
}

/// What an operation does on given arguments: its step, and the registry
/// after it.
pub open spec fn operation_model(
    operation: Operation,
    state: Map<Handle, EntryView>,
    args: Seq<TermView>,
) -> (Option<StepView>, Map<Handle, EntryView>) {
    match operation {
        Operation::FromProtocol => (context::from_protocol_model(args), state),
        Operation::Protocol => (context::protocol_model(state, args), state),
        Operation::Armor => (context::armor_model(state, args), state),
        Operation::SetArmor => context::set_armor_model(state, args),
        Operation::TextMode => (context::text_mode_model(state, args), state),
        Operation::SetTextMode => context::set_text_mode_model(state, args),
        Operation::Offline => (context::offline_model(state, args), state),
        Operation::SetOffline => context::set_offline_model(state, args),
        Operation::GetFlag => context::get_flag_model(state, args),
        Operation::SetFlag => context::set_flag_model(state, args),
        Operation::EngineInfo => context::engine_info_model(state, args),
        Operation::SetEnginePath => context::set_engine_path_model(state, args),
        Operation::SetEngineHomeDir => context::set_engine_home_dir_model(state, args),
        Operation::PinentryMode => (context::pinentry_mode_model(state, args), state),
        Operation::SetPinentryMode => context::set_pinentry_mode_model(state, args),
        Operation::Import => context::import_model(state, args),
        Operation::FindKey => context::find_key_model(state, args),
        Operation::DeleteKey => context::delete_key_model(state, args),
        Operation::DeleteSecretKey => context::delete_secret_key_model(state, args),
        Operation::Decrypt => context::decrypt_model(state, args),
        Operation::EncryptWithFlags => context::encrypt_with_flags_model(state, args),
        Operation::SignAndEncryptWithFlags => context::sign_and_encrypt_with_flags_model(state, args),
        Operation::SignWithMode => context::sign_with_mode_model(state, args),
        Operation::VerifyOpaque => context::verify_opaque_model(state, args),
    }
}

/// The row of an operation.
pub fn command(operation: Operation) -> (r: Command)
    ensures
        r == command_of(operation),
{
    match operation {
        Operation::FromProtocol => Command { operation, arity: 1, schedule: Schedule::Interactive },
        Operation::Protocol => Command { operation, arity: 1, schedule: Schedule::Interactive },
        Operation::Armor => Command { operation, arity: 1, schedule: Schedule::Interactive },
        Operation::SetArmor => Command { operation, arity: 2, schedule: Schedule::Interactive },
        Operation::TextMode => Command { operation, arity: 1, schedule: Schedule::Interactive },
        Operation::SetTextMode => Command { operation, arity: 2, schedule: Schedule::Interactive },
        Operation::Offline => Command { operation, arity: 1, schedule: Schedule::Interactive },
        Operation::SetOffline => Command { operation, arity: 2, schedule: Schedule::Interactive },
        Operation::GetFlag => Command { operation, arity: 2, schedule: Schedule::Interactive },
        Operation::SetFlag => Command { operation, arity: 3, schedule: Schedule::Interactive },
        Operation::EngineInfo => Command { operation, arity: 1, schedule: Schedule::Interactive },
        Operation::SetEnginePath => Command { operation, arity: 2, schedule: Schedule::Interactive },
        Operation::SetEngineHomeDir => Command { operation, arity: 2, schedule: Schedule::Interactive },
        Operation::PinentryMode => Command { operation, arity: 1, schedule: Schedule::Interactive },
        Operation::SetPinentryMode => Command { operation, arity: 2, schedule: Schedule::Interactive },
        Operation::Import => Command { operation, arity: 2, schedule: Schedule::Blocking },
        Operation::FindKey => Command { operation, arity: 2, schedule: Schedule::Blocking },
        Operation::DeleteKey => Command { operation, arity: 2, schedule: Schedule::Blocking },
        Operation::DeleteSecretKey => Command { operation, arity: 2, schedule: Schedule::Blocking },
        Operation::Decrypt => Command { operation, arity: 2, schedule: Schedule::Blocking },
        Operation::EncryptWithFlags => Command { operation, arity: 4, schedule: Schedule::Blocking },
        Operation::SignAndEncryptWithFlags => Command { operation, arity: 4, schedule: Schedule::Blocking },
        Operation::SignWithMode => Command { operation, arity: 3, schedule: Schedule::Blocking },
        Operation::VerifyOpaque => Command { operation, arity: 3, schedule: Schedule::Blocking },
    }
}

/// The name by which the host calls an operation.
pub fn name(operation: Operation) -> (r: String)
    ensures
        r@ == name_of(operation),
{
    match operation {
        Operation::FromProtocol => String::from_str("from_protocol"),
        Operation::Protocol => String::from_str("protocol"),
        Operation::Armor => String::from_str("armor?"),
        Operation::SetArmor => String::from_str("set_armor"),
        Operation::TextMode => String::from_str("text_mode?"),
        Operation::SetTextMode => String::from_str("set_text_mode"),
        Operation::Offline => String::from_str("offline?"),
        Operation::SetOffline => String::from_str("set_offline"),
        Operation::GetFlag => String::from_str("get_flag"),
        Operation::SetFlag => String::from_str("set_flag"),
        Operation::EngineInfo => String::from_str("engine_info"),
        Operation::SetEnginePath => String::from_str("set_engine_path"),
        Operation::SetEngineHomeDir => String::from_str("set_engine_home_dir"),
        Operation::PinentryMode => String::from_str("pinentry_mode"),
        Operation::SetPinentryMode => String::from_str("set_pinentry_mode"),
        Operation::Import => String::from_str("import"),
        Operation::FindKey => String::from_str("find_key"),
        Operation::DeleteKey => String::from_str("delete_key"),
        Operation::DeleteSecretKey => String::from_str("delete_secret_key"),
        Operation::Decrypt => String::from_str("decrypt"),
        Operation::EncryptWithFlags => String::from_str("encrypt_with_flags"),
        Operation::SignAndEncryptWithFlags => String::from_str("sign_and_encrypt_with_flags"),
        Operation::SignWithMode => String::from_str("sign_with_mode"),
        Operation::VerifyOpaque => String::from_str("verify_opaque"),
    }
}

/// Finds the row of the operation that the host calls `name`.
pub fn lookup(name: &String) -> (r: Option<Command>)
    ensures
        r == (match operation_named(name@) {
            Some(operation) => Some(command_of(operation)),
            None => None,
        }),
{
    if is_tag(name, "from_protocol") {
        Some(command(Operation::FromProtocol))
    } else if is_tag(name, "protocol") {
        Some(command(Operation::Protocol))
    } else if is_tag(name, "armor?") {
        Some(command(Operation::Armor))
    } else if is_tag(name, "set_armor") {
        Some(command(Operation::SetArmor))
    } else if is_tag(name, "text_mode?") {
        Some(command(Operation::TextMode))
    } else if is_tag(name, "set_text_mode") {
        Some(command(Operation::SetTextMode))
    } else if is_tag(name, "offline?") {
        Some(command(Operation::Offline))
    } else if is_tag(name, "set_offline") {
        Some(command(Operation::SetOffline))
    } else if is_tag(name, "get_flag") {
        Some(command(Operation::GetFlag))
    } else if is_tag(name, "set_flag") {
        Some(command(Operation::SetFlag))
    } else if is_tag(name, "engine_info") {
        Some(command(Operation::EngineInfo))
    } else if is_tag(name, "set_engine_path") {
        Some(command(Operation::SetEnginePath))
    } else if is_tag(name, "set_engine_home_dir") {
        Some(command(Operation::SetEngineHomeDir))
    } else if is_tag(name, "pinentry_mode") {
        Some(command(Operation::PinentryMode))
    } else if is_tag(name, "set_pinentry_mode") {
        Some(command(Operation::SetPinentryMode))
    } else if is_tag(name, "import") {
        Some(command(Operation::Import))
    } else if is_tag(name, "find_key") {
        Some(command(Operation::FindKey))
    } else if is_tag(name, "delete_key") {
        Some(command(Operation::DeleteKey))
    } else if is_tag(name, "delete_secret_key") {
        Some(command(Operation::DeleteSecretKey))
    } else if is_tag(name, "decrypt") {
        Some(command(Operation::Decrypt))
    } else if is_tag(name, "encrypt_with_flags") {
        Some(command(Operation::EncryptWithFlags))
    } else if is_tag(name, "sign_and_encrypt_with_flags") {
        Some(command(Operation::SignAndEncryptWithFlags))
    } else if is_tag(name, "sign_with_mode") {
        Some(command(Operation::SignWithMode))
    } else if is_tag(name, "verify_opaque") {
        Some(command(Operation::VerifyOpaque))
    } else {
        None
    }
}

/// Hands a call of the host to the operation that it names. The table
/// does nothing of its own: what comes back is what the operation does.
pub fn dispatch(registry: &mut Registry, operation: Operation, args: &Vec<Term>) -> (r: Result<
    Step,
    BridgeError,
>)
    requires
        old(registry).wf(),
    ensures
        final(registry).wf(),
        old(registry).outlived_by(*final(registry)),
        stepped(r, operation_model(operation, old(registry)@, views(args@)).0),
        final(registry)@ == operation_model(operation, old(registry)@, views(args@)).1,
{
    match operation {
        Operation::FromProtocol => context::from_protocol(args),
        Operation::Protocol => context::protocol(registry, args),
        Operation::Armor => context::armor(registry, args),
        Operation::SetArmor => context::set_armor(registry, args),
        Operation::TextMode => context::text_mode(registry, args),
        Operation::SetTextMode => context::set_text_mode(registry, args),
        Operation::Offline => context::offline(registry, args),
        Operation::SetOffline => context::set_offline(registry, args),
        Operation::GetFlag => context::get_flag(registry, args),
        Operation::SetFlag => context::set_flag(registry, args),
        Operation::EngineInfo => context::engine_info(registry, args),
        Operation::SetEnginePath => context::set_engine_path(registry, args),
        Operation::SetEngineHomeDir => context::set_engine_home_dir(registry, args),
        Operation::PinentryMode => context::pinentry_mode(registry, args),
        Operation::SetPinentryMode => context::set_pinentry_mode(registry, args),
        Operation::Import => context::import(registry, args),
        Operation::FindKey => context::find_key(registry, args),
        Operation::DeleteKey => context::delete_key(registry, args),
        Operation::DeleteSecretKey => context::delete_secret_key(registry, args),
        Operation::Decrypt => context::decrypt(registry, args),
        Operation::EncryptWithFlags => context::encrypt_with_flags(registry, args),
        Operation::SignAndEncryptWithFlags => context::sign_and_encrypt_with_flags(registry, args),
        Operation::SignWithMode => context::sign_with_mode(registry, args),
        Operation::VerifyOpaque => context::verify_opaque(registry, args),
    }
}

/// Every operation is found in the table by its name, with its own row.
pub proof fn lemma_every_operation_is_listed(operation: Operation)
    ensures
        operation_named(name_of(operation)) == Some(operation),
{
    reveal_strlit("from_protocol");
    reveal_strlit("protocol");
    reveal_strlit("armor?");
    reveal_strlit("set_armor");
    reveal_strlit("text_mode?");
    reveal_strlit("set_text_mode");
    reveal_strlit("offline?");
    reveal_strlit("set_offline");
    reveal_strlit("get_flag");
    reveal_strlit("set_flag");
    reveal_strlit("engine_info");
    reveal_strlit("set_engine_path");
    reveal_strlit("set_engine_home_dir");
    reveal_strlit("pinentry_mode");
    reveal_strlit("set_pinentry_mode");
    reveal_strlit("import");
    reveal_strlit("find_key");
    reveal_strlit("delete_key");
    reveal_strlit("delete_secret_key");
    reveal_strlit("decrypt");
    reveal_strlit("encrypt_with_flags");
    reveal_strlit("sign_and_encrypt_with_flags");
    reveal_strlit("sign_with_mode");
    reveal_strlit("verify_opaque");
    assert("from_protocol"@.len() == 13 && "from_protocol"@[0] == 'f');
    assert("protocol"@.len() == 8 && "protocol"@[0] == 'p');
    assert("armor?"@.len() == 6 && "armor?"@[0] == 'a');
    assert("set_armor"@.len() == 9);
    assert("text_mode?"@.len() == 10 && "text_mode?"@[0] == 't');
    assert("set_text_mode"@.len() == 13 && "set_text_mode"@[0] == 's');
    assert("offline?"@.len() == 8 && "offline?"@[0] == 'o');
    assert("set_offline"@.len() == 11 && "set_offline"@[0] == 's');
    assert("get_flag"@.len() == 8 && "get_flag"@[0] == 'g');
    assert("set_flag"@.len() == 8 && "set_flag"@[0] == 's');
    assert("engine_info"@.len() == 11 && "engine_info"@[0] == 'e');
    assert("set_engine_path"@.len() == 15);
    assert("set_engine_home_dir"@.len() == 19);
    assert("pinentry_mode"@.len() == 13 && "pinentry_mode"@[0] == 'p');
    assert("set_pinentry_mode"@.len() == 17 && "set_pinentry_mode"@[0] == 's');
    assert("import"@.len() == 6 && "import"@[0] == 'i');
    assert("find_key"@.len() == 8 && "find_key"@[0] == 'f');
    assert("delete_key"@.len() == 10 && "delete_key"@[0] == 'd');
    assert("delete_secret_key"@.len() == 17 && "delete_secret_key"@[0] == 'd');
    assert("decrypt"@.len() == 7);
    assert("encrypt_with_flags"@.len() == 18);
    assert("sign_and_encrypt_with_flags"@.len() == 27);
    assert("sign_with_mode"@.len() == 14);
    assert("verify_opaque"@.len() == 13 && "verify_opaque"@[0] == 'v');
}

/// A call with another number of arguments than its operation takes is a
/// bad argument and changes nothing.
pub proof fn lemma_arity_is_checked(
    operation: Operation,
    state: Map<Handle, EntryView>,
    args: Seq<TermView>,
)
    requires
        args.len() != arity_of(operation),
    ensures
        operation_model(operation, state, args) == (None::<StepView>, state),
{
}

} // verus!
