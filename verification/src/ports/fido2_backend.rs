//! The FIDO2 enrollment port.
use vstd::prelude::*;

use crate::domain::errors::DomainError;
use crate::domain::types::{KeyMetadata, MapperHandle};

verus! {

/// How the port should pick which physical FIDO2 device fills which role.
#[derive(Debug, Clone, PartialEq, Eq)]
pub enum Fido2DeviceSelection {
    /// Enumerate the plugged-in devices and ask the user when needed.
    Interactive,
    /// `new` is the device to enroll; `existing` (when required) is the
    /// already-enrolled device that authenticates the enrollment.
    Explicit { new: String, existing: Option<String> },
}

pub trait Fido2Backend {
    /// `Err` names every missing dependency this port needs.
    fn check_prerequisites(&self) -> Result<(), Vec<String>>;

    /// Enrolls a FIDO2 key as a `systemd-fido2` token and keyslot on
    /// `mapper.source_path`, writing `metadata` onto that token.
    /// `user_verification` requires the device's own fingerprint/PIN check at
    /// unlock; `client_pin` (when given) sets whether a host-typed PIN is
    /// required.
    fn enroll_fido2_key(
        &self,
        mapper: &MapperHandle,
        metadata: KeyMetadata,
        selection: Fido2DeviceSelection,
        user_verification: bool,
        client_pin: Option<bool>,
    ) -> Result<(), DomainError>;
}

} // verus!
