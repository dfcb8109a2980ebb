use vstd::prelude::*;
use crate::context::resource::Handle;
use crate::context::session::{Setting, SettingView};
use crate::encrypt_flags::{EncryptFlag, EncryptFlags};
use crate::error::BridgeError;
use crate::keys::KeyResource;
use crate::protocol::Protocol;
use crate::sign_mode::SignMode;
use crate::term::{Term, TermView};

verus! {

/// Work that only the engine can do, with what it needs, all decoded.
#[derive(Debug, PartialEq, Eq)]
pub enum EngineCall {
    Open { protocol: Protocol },
    EngineInfo { context: Handle },
    GetFlag { context: Handle, name: String },
    Configure { context: Handle, setting: Setting },
    Import { context: Handle, data: String },
    FindKey { context: Handle, fingerprint: String },
    DeleteKey { context: Handle, key: KeyResource },
    DeleteSecretKey { context: Handle, key: KeyResource },
    Decrypt { context: Handle, cyphertext: String },
    Encrypt { context: Handle, recipients: Vec<KeyResource>, data: String, flags: EncryptFlags },
    SignAndEncrypt {
        context: Handle,
        recipients: Vec<KeyResource>,
        data: String,
        flags: EncryptFlags,
    },
    Sign { context: Handle, mode: SignMode, data: String },
    VerifyOpaque { context: Handle, signature: String, data: String },
}

/// The mathematical value of an [`EngineCall`].
pub enum EngineCallView {
    Open { protocol: Protocol },
    EngineInfo { context: Handle },
    GetFlag { context: Handle, name: Seq<char> },
    Configure { context: Handle, setting: SettingView },
    Import { context: Handle, data: Seq<char> },
    FindKey { context: Handle, fingerprint: Seq<char> },
    DeleteKey { context: Handle, key: KeyResource },
    DeleteSecretKey { context: Handle, key: KeyResource },
    Decrypt { context: Handle, cyphertext: Seq<char> },
    Encrypt {
        context: Handle,
        recipients: Seq<KeyResource>,
        data: Seq<char>,
        flags: Set<EncryptFlag>,
    },
    SignAndEncrypt {
        context: Handle,
        recipients: Seq<KeyResource>,
        data: Seq<char>,
        flags: Set<EncryptFlag>,
    },
    Sign { context: Handle, mode: SignMode, data: Seq<char> },
    VerifyOpaque { context: Handle, signature: Seq<char>, data: Seq<char> },
}

impl View for EngineCall {
    type V = EngineCallView;

    open spec fn view(&self) -> EngineCallView {
        match self {
            EngineCall::Open { protocol } => EngineCallView::Open { protocol: *protocol },
            EngineCall::EngineInfo { context } => EngineCallView::EngineInfo { context: *context },
            EngineCall::GetFlag { context, name } => EngineCallView::GetFlag {
                context: *context,
                name: name@,
            },
            EngineCall::Configure { context, setting } => EngineCallView::Configure {
                context: *context,
                setting: setting@,
            },
            EngineCall::Import { context, data } => EngineCallView::Import {
                context: *context,
                data: data@,
            },
            EngineCall::FindKey { context, fingerprint } => EngineCallView::FindKey {
                context: *context,
                fingerprint: fingerprint@,
            },
            EngineCall::DeleteKey { context, key } => EngineCallView::DeleteKey {
                context: *context,
                key: *key,
            },
            EngineCall::DeleteSecretKey { context, key } => EngineCallView::DeleteSecretKey {
                context: *context,
                key: *key,
            },
            EngineCall::Decrypt { context, cyphertext } => EngineCallView::Decrypt {
                context: *context,
                cyphertext: cyphertext@,
            },
            EngineCall::Encrypt { context, recipients, data, flags } => EngineCallView::Encrypt {
                context: *context,
                recipients: recipients@,
                data: data@,
                flags: flags@,
            },
            EngineCall::SignAndEncrypt {
                context,
                recipients,
                data,
                flags,
            } => EngineCallView::SignAndEncrypt {
                context: *context,
                recipients: recipients@,
                data: data@,
                flags: flags@,
            },
            EngineCall::Sign { context, mode, data } => EngineCallView::Sign {
                context: *context,
                mode: *mode,
                data: data@,
            },
            EngineCall::VerifyOpaque { context, signature, data } => EngineCallView::VerifyOpaque {
                context: *context,
                signature: signature@,
                data: data@,
            },
        }
    }
}

/// How a call holds the lock of its context while the engine works.
#[derive(Clone, Copy, Debug, PartialEq, Eq, Structural)]
pub enum Hold {
    /// The call has no context yet.
    Nothing,
    /// Read access: other readers may go on.
    Shared(Handle),
    /// Write access: nobody else may use the context.
    Exclusive(Handle),
}

/// The hold of a call. Whatever makes the engine work on a context holds
/// it exclusively, so that no two pieces of engine work on one context
/// overlap. The two calls that only read what the engine knows, its
/// description and the value of a flag, read.
pub open spec fn hold_of(call: EngineCallView) -> Hold {
    match call {
        EngineCallView::Open { .. } => Hold::Nothing,
        EngineCallView::EngineInfo { context } => Hold::Shared(context),
        EngineCallView::GetFlag { context, .. } => Hold::Shared(context),
        EngineCallView::Configure { context, .. } => Hold::Exclusive(context),
        EngineCallView::FindKey { context, .. } => Hold::Exclusive(context),
        EngineCallView::Import { context, .. } => Hold::Exclusive(context),
        EngineCallView::DeleteKey { context, .. } => Hold::Exclusive(context),
        EngineCallView::DeleteSecretKey { context, .. } => Hold::Exclusive(context),
        EngineCallView::Decrypt { context, .. } => Hold::Exclusive(context),
        EngineCallView::Encrypt { context, .. } => Hold::Exclusive(context),
        EngineCallView::SignAndEncrypt { context, .. } => Hold::Exclusive(context),
        EngineCallView::Sign { context, .. } => Hold::Exclusive(context),
        EngineCallView::VerifyOpaque { context, .. } => Hold::Exclusive(context),
    }
}

impl EngineCall {
    /// How the call holds the lock of its context.
    pub fn hold(&self) -> (r: Hold)
        ensures
            r == hold_of(self@),
    {
        match self {
            EngineCall::Open { .. } => Hold::Nothing,
            EngineCall::EngineInfo { context } => Hold::Shared(*context),
            EngineCall::GetFlag { context, .. } => Hold::Shared(*context),
            EngineCall::Configure { context, .. } => Hold::Exclusive(*context),
            EngineCall::FindKey { context, .. } => Hold::Exclusive(*context),
            EngineCall::Import { context, .. } => Hold::Exclusive(*context),
            EngineCall::DeleteKey { context, .. } => Hold::Exclusive(*context),
            EngineCall::DeleteSecretKey { context, .. } => Hold::Exclusive(*context),
            EngineCall::Decrypt { context, .. } => Hold::Exclusive(*context),
            EngineCall::Encrypt { context, .. } => Hold::Exclusive(*context),
            EngineCall::SignAndEncrypt { context, .. } => Hold::Exclusive(*context),
            EngineCall::Sign { context, .. } => Hold::Exclusive(*context),
            EngineCall::VerifyOpaque { context, .. } => Hold::Exclusive(*context),
        }
    }
}

/// What the bridge does next for a call of the host.
#[derive(Debug, PartialEq, Eq)]
pub enum Step {
    /// Answer the host with this value.
    Reply(Term),
    /// The context is in use: try the same call again when its lock was
    /// given back.
    Wait,
    /// Let the engine do this work, then answer with what it came to.
    Call(EngineCall),
}

/// The mathematical value of a [`Step`].
pub enum StepView {
    Reply(TermView),
    Wait,
    Call(EngineCallView),
}

impl View for Step {
    type V = StepView;

    open spec fn view(&self) -> StepView {
        match self {
            Step::Reply(term) => StepView::Reply(term@),
            Step::Wait => StepView::Wait,
            Step::Call(call) => StepView::Call(call@),
        }
    }
}

/// Whether `r` is what a handler owes where `expected` is its step: that
/// step, or the bad argument where there is none.
pub open spec fn stepped(r: Result<Step, BridgeError>, expected: Option<StepView>) -> bool {
    match expected {
        Some(step) => r is Ok && r->Ok_0@ == step,
        None => r == Err::<Step, BridgeError>(BridgeError::BadArgument),
    }
}

} // verus!
