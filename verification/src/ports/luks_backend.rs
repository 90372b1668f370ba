//! The LUKS2 port. Implemented by the caller (the `cryptsetup`-driving
//! adapter, or a test double); the workflows decide, this port acts.
use vstd::prelude::*;

use crate::domain::errors::DomainError;
use crate::domain::keyslot_guard::removal_allowed;
use crate::domain::types::{Filesystem, KeyslotInfo, KeyslotRef, MapperHandle};

verus! {

pub trait LuksBackend {
    /// `Err` names every missing dependency this port needs.
    fn check_prerequisites(&self) -> Result<(), Vec<String>>;

    /// Whether `path` already carries a LUKS2 header.
    fn has_luks2_header(&self, path: &str) -> Result<bool, DomainError>;

    /// Whether `path` carries a LUKS2 header with this tool's
    /// interrupted-create marker token.
    fn has_marker_token(&self, path: &str) -> Result<bool, DomainError>;

    /// Removes the marker token written by `bootstrap_format_and_open`.
    fn remove_marker_token(&self, path: &str) -> Result<(), DomainError>;

    /// Closes a stale mapping left under `name`; "no such mapping" is `Ok`.
    fn close_stale_mapping(&self, name: &str) -> Result<(), DomainError>;

    /// Formats a fresh LUKS2 header on `path` with a transient passphrase
    /// and opens it as `name`, constrained to `size` bytes.
    fn bootstrap_format_and_open(
        &self,
        path: &str,
        name: &str,
        size: u64,
        filesystem: Filesystem,
    ) -> Result<MapperHandle, DomainError>;

    /// Live keyslots carrying a `systemd-fido2` token, read fresh each call.
    fn list_fido2_keyslots(&self, path: &str) -> Result<Vec<KeyslotInfo>, DomainError>;

    /// Removes `keyslot`'s token metadata, then the keyslot itself. Only
    /// ever asked for after a listing of the valid keyslots of `path` that
    /// leaves another valid keyslot once `keyslot` is gone (or in which
    /// `keyslot` is not a valid one at all).
    fn remove_key(&self, path: &str, keyslot: KeyslotRef) -> Result<(), DomainError>
        requires
            exists|live: Vec<KeyslotInfo>|
                #[trigger] call_ensures(
                    Self::list_fido2_keyslots,
                    (self, path),
                    Ok::<Vec<KeyslotInfo>, DomainError>(live),
                ) && removal_allowed(live@, keyslot),
    ;

    /// Releases `mapper`'s dm-crypt mapping.
    fn close(&self, mapper: &MapperHandle) -> Result<(), DomainError>;

    /// Opens the existing volume at `path` as `name` via its FIDO2 token.
    fn open(&self, path: &str, name: &str, read_only: bool) -> Result<MapperHandle, DomainError>;

    /// Grows the open mapping to fill its (already grown) backing storage.
    fn resize(&self, mapper: &MapperHandle) -> Result<(), DomainError>;

    /// The filesystem recorded on `path`'s `systemd-fido2` token.
    fn read_filesystem(&self, path: &str) -> Result<Filesystem, DomainError>;

    /// Every currently open mapping carrying this tool's name prefix.
    fn list_open_mappings(&self) -> Result<Vec<MapperHandle>, DomainError>;
}

} // verus!
