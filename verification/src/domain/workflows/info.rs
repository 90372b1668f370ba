//! `info`: lists a volume's enrolled keys without unlocking it.
use vstd::prelude::*;

use crate::domain::errors::DomainError;
use crate::domain::preflight;
use crate::domain::types::KeyslotInfo;
use crate::ports::fido2_backend::Fido2Backend;
use crate::ports::filesystem_backend::FilesystemBackend;
use crate::ports::journal::{extends, PortCall, Ports};
use crate::ports::luks_backend::LuksBackend;

verus! {

/// The valid keyslots of the volume at `path`, read from its header; no
/// lock is taken, since nothing is changed.
pub fn run<L: LuksBackend, F: Fido2Backend, S: FilesystemBackend>(
    path: &str,
    ports: &mut Ports<'_, L, F, S>,
) -> (r: Result<Vec<KeyslotInfo>, DomainError>)
    ensures
        final(ports).keeps(*old(ports)),
        extends(old(ports).log(), final(ports).log()),
        preflight::opens_with_preflight(old(ports).log(), final(ports).log(), None),
        preflight::passed_at(final(ports).log(), old(ports).log().len() as int) ==> (final(ports).log().len()
            == old(ports).log().len() + 4 && final(ports).log()[old(ports).log().len() + 3int]
            == PortCall::ListFido2Keyslots(path@, r)),
        exists|pre: Result<(), DomainError>|
            #[trigger] preflight::check_outcome(old(ports).luks(), old(ports).fido2(), old(ports).fs(), None, pre) && match pre {
                Err(e) => r == Err::<Vec<KeyslotInfo>, DomainError>(e),
                Ok(_) => call_ensures(L::list_fido2_keyslots, (old(ports).luks(), path), r),
            },
{
    preflight::check(ports, None)?;
    ports.list_fido2_keyslots(path)
}

} // verus!
