//! A bridge between a host runtime and a cryptography engine: the values
//! that cross it, the handles that the host holds, and what each call of the
//! host comes to. The engine itself is not here; whoever runs the bridge
//! does the engine's work where a call hands it out.

pub mod context;
pub mod dispatch;
pub mod encrypt_flags;
pub mod engine;
pub mod error;
pub mod hash_algorithm;
pub mod helpers;
pub mod key_algorithm;
pub mod keys;
pub mod notation;
pub mod pinentry_mode;
pub mod protocol;
pub mod results;
pub mod sign_mode;
pub mod term;
pub mod validity;
