//! `revoke`: removes one FIDO2 key, never the last one.
use vstd::prelude::*;

use crate::domain::errors::DomainError;
use crate::domain::keyslot_guard::{
    guarded_removal_calls, guarded_removal_outcome, remove_keyslot_guarded,
};
use crate::domain::preflight;
use crate::domain::types::{KeyslotInfo, KeyslotRef};
use crate::ports::fido2_backend::Fido2Backend;
use crate::ports::filesystem_backend::FilesystemBackend;
use crate::ports::journal::{extends, PortCall, Ports};
use crate::ports::luks_backend::LuksBackend;
use crate::text::text_eq;

verus! {

/// Whether `k` is the first index of `keys` labelled `label`.
pub open spec fn first_labelled(keys: Seq<KeyslotInfo>, label: Seq<char>, k: int) -> bool {
    &&& 0 <= k < keys.len()
    &&& keys[k].key_label@ == label
    &&& forall|j: int| 0 <= j < k ==> (#[trigger] keys[j]).key_label@ != label
}

/// The keyslot of the first key labelled `label`, if any.
pub fn find_keyslot_by_label(keys: &Vec<KeyslotInfo>, label: &str) -> (r: Option<KeyslotRef>)
    ensures
        r is None <==> forall|j: int| 0 <= j < keys@.len() ==> (#[trigger] keys@[j]).key_label@ != label@,
        r matches Some(slot) ==> exists|k: int| first_labelled(keys@, label@, k) && keys@[k].keyslot == slot,
{
    let mut i: usize = 0;
    while i < keys.len()
        invariant
            i <= keys@.len(),
            forall|j: int| 0 <= j < i ==> (#[trigger] keys@[j]).key_label@ != label@,
        decreases keys.len() - i,
    {
        if text_eq(keys[i].key_label.as_str(), label) {
            assert(first_labelled(keys@, label@, i as int));
            return Some(keys[i].keyslot);
        }
        i = i + 1;
    }
    None
}

/// From index `k` of `log` on, the calls revoking `key_label` make once
/// the preflight passed: the lock, one listing, then (only when a key has
/// that label) the guarded removal of the first such key's keyslot; nothing
/// follows a failure or a label no key carries.
pub open spec fn revoke_calls(
    log: Seq<PortCall>,
    k: int,
    path: Seq<char>,
    key_label: Seq<char>,
    r: Result<(), DomainError>,
) -> bool {
    &&& 0 <= k < log.len()
    &&& log[k] matches PortCall::LockTarget(p, locked)
    &&& p == path
    &&& if !locked {
        log.len() == k + 1
    } else {
        k + 1 < log.len() && (log[k + 1] matches PortCall::ListFido2Keyslots(q, listing) && q == path
            && match listing {
            Err(_) => log.len() == k + 2,
            Ok(keys) => ((forall|j: int| 0 <= j < keys@.len() ==> (#[trigger] keys@[j]).key_label@
                != key_label) ==> log.len() == k + 2) && forall|i: int|
                #[trigger] first_labelled(keys@, key_label, i) ==> guarded_removal_calls(
                    log.subrange(k + 2, log.len() as int),
                    path,
                    keys@[i].keyslot,
                    r,
                ),
        })
    }
}

/// Revokes the key labelled `key_label` on the volume at `path`: finds its
/// keyslot in a fresh listing (`KeyNotFound` when no key has that label),
/// then removes it through the last-key guard, which lists afresh again.
pub fn run<L: LuksBackend, F: Fido2Backend, S: FilesystemBackend>(
    path: &str,
    key_label: &str,
    ports: &mut Ports<'_, L, F, S>,
) -> (r: Result<(), DomainError>)
    ensures
        final(ports).keeps(*old(ports)),
        extends(old(ports).log(), final(ports).log()),
        preflight::opens_with_preflight(old(ports).log(), final(ports).log(), None),
        preflight::passed_at(final(ports).log(), old(ports).log().len() as int) ==> revoke_calls(
            final(ports).log(),
            old(ports).log().len() + 3int,
            path@,
            key_label@,
            r,
        ),
        exists|pre: Result<(), DomainError>|
            #[trigger] preflight::check_outcome(old(ports).luks(), old(ports).fido2(), old(ports).fs(), None, pre) && match pre {
                Err(e) => r == Err::<(), DomainError>(e),
                Ok(_) => exists|lock: Result<S::LockGuard, DomainError>|
                    #[trigger] call_ensures(S::lock_target, (old(ports).fs(), path), lock) && match lock {
                        Err(e) => r == Err::<(), DomainError>(e),
                        Ok(_) => exists|listing: Result<Vec<KeyslotInfo>, DomainError>|
                            #[trigger] call_ensures(L::list_fido2_keyslots, (old(ports).luks(), path), listing)
                                && match listing {
                                Err(e) => r == Err::<(), DomainError>(e),
                                Ok(keys) => {
                                    &&& (forall|j: int| 0 <= j < keys@.len() ==> (#[trigger] keys@[j]).key_label@
                                        != key_label@) ==> (r matches Err(DomainError::KeyNotFound(l))
                                        && l@ == key_label@)
                                    &&& forall|k: int| #[trigger] first_labelled(keys@, key_label@, k)
                                        ==> guarded_removal_outcome(old(ports).luks(), path, keys@[k].keyslot, r)
                                },
                            },
                    },
            },
{
    preflight::check(ports, None)?;
    let _lock = ports.lock_target(path)?;
    let keys = ports.list_fido2_keyslots(path)?;
    match find_keyslot_by_label(&keys, key_label) {
        None => Err(DomainError::KeyNotFound(String::from_str(key_label))),
        Some(target) => remove_keyslot_guarded(ports, path, target),
    }
}

} // verus!
