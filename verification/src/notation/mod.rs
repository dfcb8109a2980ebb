pub mod signature_notation;
