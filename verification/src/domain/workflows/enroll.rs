//! `enroll`: adds another FIDO2 key to an existing volume.
use vstd::prelude::*;

use crate::domain::errors::DomainError;
use crate::domain::mapping_name::{mapping_name, mapping_name_outcome};
use crate::domain::preflight;
use crate::domain::types::{Filesystem, KeyMetadata, MapperHandle};
use crate::ports::fido2_backend::{Fido2Backend, Fido2DeviceSelection};
use crate::ports::filesystem_backend::FilesystemBackend;
use crate::ports::journal::{extends, PortCall, Ports};
use crate::ports::luks_backend::LuksBackend;

verus! {

/// From index `k` of `log` on, the calls enrolling a key on `path` make
/// once the preflight passed: the lock, the mapping name's
/// canonicalization, then the enrollment itself as the last call, whose
/// answer is `r`; nothing is opened or mounted.
pub open spec fn enroll_calls(
    log: Seq<PortCall>,
    k: int,
    path: Seq<char>,
    r: Result<(), DomainError>,
) -> bool {
    &&& 0 <= k < log.len()
    &&& log[k] matches PortCall::LockTarget(p, locked)
    &&& p == path
    &&& if !locked {
        log.len() == k + 1
    } else {
        k + 1 < log.len() && (log[k + 1] matches PortCall::Canonicalize(q, canonical) && q == path
            && if canonical is Err {
            log.len() == k + 2
        } else {
            log.len() == k + 3 && (log[k + 2] matches PortCall::EnrollFido2Key(m, _, _, _, _, answer)
                && m.source_path@ == path && answer == r)
        })
    }
}

/// Enrolls a new key labelled `key_label` on the volume at `path`, through
/// the volume's mapping name; the volume is neither opened nor mounted.
/// `user_verification` and `client_pin` are handed to the FIDO2 port as
/// given.
pub fn run<L: LuksBackend, F: Fido2Backend, S: FilesystemBackend>(
    path: &str,
    key_label: String,
    selection: Fido2DeviceSelection,
    user_verification: bool,
    client_pin: Option<bool>,
    ports: &mut Ports<'_, L, F, S>,
) -> (r: Result<(), DomainError>)
    ensures
        final(ports).keeps(*old(ports)),
        extends(old(ports).log(), final(ports).log()),
        preflight::opens_with_preflight(old(ports).log(), final(ports).log(), None),
        preflight::passed_at(final(ports).log(), old(ports).log().len() as int) ==> enroll_calls(
            final(ports).log(),
            old(ports).log().len() + 3int,
            path@,
            r,
        ),
        exists|pre: Result<(), DomainError>|
            #[trigger] preflight::check_outcome(old(ports).luks(), old(ports).fido2(), old(ports).fs(), None, pre) && match pre {
                Err(e) => r == Err::<(), DomainError>(e),
                Ok(_) => exists|lock: Result<S::LockGuard, DomainError>|
                    #[trigger] call_ensures(S::lock_target, (old(ports).fs(), path), lock) && match lock {
                        Err(e) => r == Err::<(), DomainError>(e),
                        Ok(_) => exists|name: Result<String, DomainError>|
                            #[trigger] mapping_name_outcome(old(ports).fs(), path, name) && match name {
                                Err(e) => r == Err::<(), DomainError>(e),
                                Ok(n) => exists|mapper: MapperHandle, metadata: KeyMetadata|
                                    #[trigger] call_ensures(
                                        F::enroll_fido2_key,
                                        (old(ports).fido2(), &mapper, metadata, selection, user_verification, client_pin),
                                        r,
                                    ) && mapper.name == n && mapper.source_path@ == path@
                                        && metadata.key_label == key_label && metadata.filesystem
                                        == Filesystem::Ext4,
                            },
                    },
            },
{
    preflight::check(ports, None)?;
    let _lock = ports.lock_target(path)?;
    let name = mapping_name(ports, path)?;
    let mapper = MapperHandle { name, source_path: String::from_str(path) };
    let metadata = KeyMetadata { key_label, filesystem: Filesystem::Ext4 };
    ports.enroll_fido2_key(&mapper, metadata, selection, user_verification, client_pin)
}

} // verus!
