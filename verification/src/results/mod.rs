pub mod import;
pub mod import_result;
pub mod pka_trust;
pub mod signature;
pub mod verification_result;
