//! Search for a keypair whose address matches a hexadecimal pattern, with the
//! matching rules, the core selection and the decisions of the parallel search
//! stated and proved.
pub mod args;
pub mod cores;
pub mod error;
pub mod floorer;
pub mod grind;
pub mod grinder;
pub mod signature_scheme;
pub mod text;
pub mod worker;
