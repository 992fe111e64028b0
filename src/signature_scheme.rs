//! Key schemes and how they are named.
use crate::error::GrindArgError;
use vstd::prelude::*;

verus! {

/// The algorithm that a keypair is generated with.
#[allow(non_camel_case_types)]
#[derive(Debug, Clone, Copy, PartialEq, Eq, Structural)]
pub enum SignatureScheme {
    ED25519,
    Secp256k1,
    Secp256r1,
}

/// Reading a signature scheme from its name.
pub trait SignatureSchemeArg {
    fn try_from_arg(s: &str) -> Result<SignatureScheme, GrindArgError>;
}

} // verus!
