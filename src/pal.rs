//! The platform a gatekeeper runs on: sealed storage, remote attestation
//! and machine facts. Hosts implement these traits.

use std::fmt::Debug;
use vstd::prelude::*;

verus! {

/// `anyhow::Error`, the error type every platform error converts into;
/// nothing inside it is read.
#[verifier::external_type_specification]
#[verifier::external_body]
pub struct ExAnyhowError(anyhow::Error);

/// An error of a platform operation.
pub trait ErrorType: Debug + Into<anyhow::Error> {}

impl<T: Debug + Into<anyhow::Error>> ErrorType for T {}

/// Storage sealed to the enclave, addressed by path.
pub trait Sealing {
    type SealError: ErrorType;
    type UnsealError: ErrorType;

    fn seal_data(&self, path: &str, data: &[u8]) -> Result<(), Self::SealError>;

    fn unseal_data(&self, path: &str) -> Result<Option<Vec<u8>>, Self::UnsealError>;
}

/// Remote attestation.
pub trait RA {
    type Error: ErrorType;

    fn create_attestation_report(&self, data: &[u8]) -> Result<(String, String, String), Self::Error>;
}

/// Facts about the machine.
pub trait Machine {
    fn machine_id(&self) -> Vec<u8>;

    fn cpu_core_num(&self) -> u32;

    fn cpu_feature_level(&self) -> u32;
}

/// Everything a platform provides.
pub trait Platform: Sealing + RA + Machine + Clone {}

impl<T: Sealing + RA + Machine + Clone> Platform for T {}

} // verus!
