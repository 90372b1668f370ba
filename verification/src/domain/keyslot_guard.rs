//! The last-key guard: a valid keyslot is only ever removed while another
//! valid keyslot remains.
use vstd::prelude::*;

use crate::domain::errors::DomainError;
use crate::domain::types::{KeyslotInfo, KeyslotRef};
use crate::ports::fido2_backend::Fido2Backend;
use crate::ports::filesystem_backend::FilesystemBackend;
use crate::ports::journal::{extends, since, PortCall, Ports};
use crate::ports::luks_backend::LuksBackend;

verus! {

/// Whether `target` is one of the valid (FIDO2-token-carrying) keyslots.
pub open spec fn is_valid_keyslot(live: Seq<KeyslotInfo>, target: KeyslotRef) -> bool {
    exists|i: int| 0 <= i < live.len() && (#[trigger] live[i]).keyslot == target
}

/// Removing `target` is allowed unless it is itself valid and no other
/// valid keyslot would remain.
pub open spec fn removal_allowed(live: Seq<KeyslotInfo>, target: KeyslotRef) -> bool {
    !(is_valid_keyslot(live, target) && live.len() <= 1)
}

/// Decides, from a fresh listing of the valid keyslots, whether removing
/// `target` may proceed.
pub fn removal_check(live: &Vec<KeyslotInfo>, target: KeyslotRef) -> (r: Result<(), DomainError>)
    ensures
        r is Ok <==> removal_allowed(live@, target),
        r is Err ==> r matches Err(DomainError::LastKeyslotGuard),
{
    let mut target_is_valid = false;
    let mut i: usize = 0;
    while i < live.len()
        invariant
            i <= live@.len(),
            target_is_valid <==> exists|k: int| 0 <= k < i && (#[trigger] live@[k]).keyslot == target,
        decreases live.len() - i,
    {
        if live[i].keyslot == target {
            target_is_valid = true;
        }
        i = i + 1;
    }
    if target_is_valid && live.len() <= 1 {
        Err(DomainError::LastKeyslotGuard)
    } else {
        Ok(())
    }
}

/// `r` is what a guarded removal of `target` returns for some answers the
/// LUKS port gave: the listing's error; the guard's refusal when the listing
/// leaves no other valid keyslot; otherwise whatever `remove_key` answered.
pub open spec fn guarded_removal_outcome<L: LuksBackend>(
    luks: &L,
    path: &str,
    target: KeyslotRef,
    r: Result<(), DomainError>,
) -> bool {
    exists|listing: Result<Vec<KeyslotInfo>, DomainError>|
        #[trigger] call_ensures(L::list_fido2_keyslots, (luks, path), listing) && match listing {
            Err(e) => r == Err::<(), DomainError>(e),
            Ok(live) => if removal_allowed(live@, target) {
                call_ensures(L::remove_key, (luks, path, target), r)
            } else {
                r matches Err(DomainError::LastKeyslotGuard)
            },
        }
}

/// The calls a guarded removal of `target` from `path` makes, and what it
/// returns: one listing; then `remove_key`, once, only when that listing
/// allows it (its answer is the result); otherwise nothing more, with the
/// listing's error or the guard's refusal as the result.
pub open spec fn guarded_removal_calls(
    calls: Seq<PortCall>,
    path: Seq<char>,
    target: KeyslotRef,
    r: Result<(), DomainError>,
) -> bool {
    &&& calls.len() >= 1
    &&& calls[0] matches PortCall::ListFido2Keyslots(p, listing)
    &&& p == path
    &&& match listing {
        Err(e) => calls.len() == 1 && r == Err::<(), DomainError>(e),
        Ok(live) => if removal_allowed(live@, target) {
            calls.len() == 2 && calls[1] == PortCall::RemoveKey(path, target, r)
        } else {
            calls.len() == 1 && r matches Err(DomainError::LastKeyslotGuard)
        },
    }
}

/// Removes `target` only if that leaves at least one valid keyslot: lists
/// the valid keyslots afresh, applies `removal_check`, and calls
/// `remove_key` only when it allows. A listing failure or a refusal is
/// returned as is, and `remove_key`'s own outcome is returned otherwise.
pub fn remove_keyslot_guarded<L: LuksBackend, F: Fido2Backend, S: FilesystemBackend>(
    ports: &mut Ports<'_, L, F, S>,
    path: &str,
    target: KeyslotRef,
) -> (r: Result<(), DomainError>)
    ensures
        final(ports).keeps(*old(ports)),
        extends(old(ports).log(), final(ports).log()),
        guarded_removal_outcome(old(ports).luks(), path, target, r),
        guarded_removal_calls(since(old(ports).log(), final(ports).log()), path@, target, r),
{
    let ghost l0 = ports.log();
    let listing = ports.list_fido2_keyslots(path);
    let ghost l1 = ports.log();
    assert(since(l0, l1) =~= seq![PortCall::ListFido2Keyslots(path@, listing)]);
    let live = match listing {
        Ok(live) => live,
        Err(e) => {
            return Err(e);
        },
    };
    match removal_check(&live, target) {
        Ok(()) => {},
        Err(e) => {
            return Err(e);
        },
    }
    let r = ports.remove_key(path, target);
    assert(since(l0, ports.log()) =~= seq![
        PortCall::ListFido2Keyslots(path@, Ok::<Vec<KeyslotInfo>, DomainError>(live)),
        PortCall::RemoveKey(path@, target, r),
    ]);
    r
}

/// The last valid key is never removable: with a single valid keyslot,
/// removing it is refused.
pub proof fn law_last_valid_key_is_kept(only: KeyslotInfo)
    ensures
        !removal_allowed(seq![only], only.keyslot),
{
    assert(seq![only][0].keyslot == only.keyslot);
}

/// Whenever a valid keyslot may be removed, and keyslots are listed once
/// each, another valid keyslot remains after the removal.
pub proof fn law_removal_leaves_a_valid_key(live: Seq<KeyslotInfo>, target: KeyslotRef)
    requires
        forall|i: int, j: int|
            0 <= i < j < live.len() ==> (#[trigger] live[i]).keyslot != (#[trigger] live[j]).keyslot,
        is_valid_keyslot(live, target),
        removal_allowed(live, target),
    ensures
        exists|k: int| 0 <= k < live.len() && (#[trigger] live[k]).keyslot != target,
{
    let i = choose|i: int| 0 <= i < live.len() && (#[trigger] live[i]).keyslot == target;
    let k = if i == 0 { 1int } else { 0int };
    assert(live[k].keyslot != target);
}

/// Removing a keyslot that is not itself valid (such as the transient
/// bootstrap slot) is always allowed, however few valid keys there are.
pub proof fn law_non_valid_target_is_always_removable(live: Seq<KeyslotInfo>, target: KeyslotRef)
    requires
        !is_valid_keyslot(live, target),
    ensures
        removal_allowed(live, target),
{
}

} // verus!
