//! `close-all`: closes every open volume this tool manages.
use vstd::prelude::*;

use crate::domain::errors::DomainError;
use crate::domain::hooks::HookWarning;
use crate::domain::preflight;
use crate::domain::types::MapperHandle;
use crate::domain::workflows::close::{close_mapping, close_sequence, relocks_follow_unmounts};
use crate::ports::fido2_backend::Fido2Backend;
use crate::ports::filesystem_backend::FilesystemBackend;
use crate::ports::journal::{extends, PortCall, Ports};
use crate::ports::luks_backend::LuksBackend;

verus! {

/// One entry per discovered open mapping, with that mapping's own outcome.
pub type CloseAllResults = Vec<(MapperHandle, Result<(), DomainError>)>;

/// `outcome` is what closing `mapper` under its own lock returns for some
/// answers the ports gave: the lock's error, or what `close_mapping` does.
pub open spec fn locked_close_outcome<L: LuksBackend, S: FilesystemBackend, W: Fn(HookWarning)>(
    luks: &L,
    fs: &S,
    warn: &W,
    mapper: MapperHandle,
    skip_hooks: bool,
    outcome: Result<(), DomainError>,
) -> bool {
    exists|p: &str, lock: Result<S::LockGuard, DomainError>|
        #[trigger] call_ensures(S::lock_target, (fs, p), lock) && p@ == mapper.source_path@
            && match lock {
            Err(e) => outcome == Err::<(), DomainError>(e),
            Ok(_) => close_sequence(luks, fs, warn, &mapper, skip_hooks, outcome),
        }
}

/// `results` pairs each of `mappings`, in order, with its locked close.
pub open spec fn closed_each<L: LuksBackend, S: FilesystemBackend, W: Fn(HookWarning)>(
    luks: &L,
    fs: &S,
    warn: &W,
    mappings: Seq<MapperHandle>,
    skip_hooks: bool,
    results: Seq<(MapperHandle, Result<(), DomainError>)>,
) -> bool {
    &&& results.len() == mappings.len()
    &&& forall|i: int| 0 <= i < mappings.len() ==> (#[trigger] results[i]).0 == mappings[i]
        && locked_close_outcome(luks, fs, warn, mappings[i], skip_hooks, results[i].1)
}

/// Discovers the open mappings and closes each with `close_mapping`, under
/// its own lock. One mapping's failure never stops the others: every
/// discovered mapping is reported, in discovery order, with its outcome. A
/// failed discovery is this call's own error.
pub fn run<L: LuksBackend, F: Fido2Backend, S: FilesystemBackend, W: Fn(HookWarning)>(
    skip_hooks: bool,
    warn: &W,
    ports: &mut Ports<'_, L, F, S>,
) -> (r: Result<CloseAllResults, DomainError>)
    requires
        forall|w: HookWarning| #[trigger] warn.requires((w,)),
    ensures
        final(ports).keeps(*old(ports)),
        extends(old(ports).log(), final(ports).log()),
        preflight::opens_with_preflight(old(ports).log(), final(ports).log(), None),
        relocks_follow_unmounts(final(ports).log(), old(ports).log().len() as int),
        exists|pre: Result<(), DomainError>|
            #[trigger] preflight::check_outcome(old(ports).luks(), old(ports).fido2(), old(ports).fs(), None, pre) && match pre {
                Err(e) => r == Err::<CloseAllResults, DomainError>(e),
                Ok(_) => exists|listing: Result<Vec<MapperHandle>, DomainError>|
                    #[trigger] call_ensures(L::list_open_mappings, (old(ports).luks(),), listing) && match listing {
                        Err(e) => r == Err::<CloseAllResults, DomainError>(e),
                        Ok(mappings) => r matches Ok(results) && closed_each(
                            old(ports).luks(),
                            old(ports).fs(),
                            warn,
                            mappings@,
                            skip_hooks,
                            results@,
                        ),
                    },
            },
{
    preflight::check(ports, None)?;
    let mappings = ports.list_open_mappings()?;
    Ok(close_each(mappings, skip_hooks, warn, ports))
}

/// Closes each mapping of `mappings` in order, pairing it with its outcome.
fn close_each<L: LuksBackend, F: Fido2Backend, S: FilesystemBackend, W: Fn(HookWarning)>(
    mappings: Vec<MapperHandle>,
    skip_hooks: bool,
    warn: &W,
    ports: &mut Ports<'_, L, F, S>,
) -> (results: CloseAllResults)
    requires
        forall|w: HookWarning| #[trigger] warn.requires((w,)),
    ensures
        final(ports).keeps(*old(ports)),
        extends(old(ports).log(), final(ports).log()),
        closed_each(old(ports).luks(), old(ports).fs(), warn, mappings@, skip_hooks, results@),
        relocks_follow_unmounts(final(ports).log(), old(ports).log().len() as int),
{
    let mut results: CloseAllResults = Vec::new();
    let mut rest = mappings;
    let ghost all = rest@;
    while rest.len() > 0
        invariant
            ports.keeps(*old(ports)),
            extends(old(ports).log(), ports.log()),
            relocks_follow_unmounts(ports.log(), old(ports).log().len() as int),
            results@.len() + rest@.len() == all.len(),
            rest@ == all.subrange(results@.len() as int, all.len() as int),
            forall|i: int| 0 <= i < results@.len() ==> (#[trigger] results@[i]).0 == all[i]
                && locked_close_outcome(old(ports).luks(), old(ports).fs(), warn, all[i], skip_hooks, results@[i].1),
            forall|w: HookWarning| #[trigger] warn.requires((w,)),
        decreases rest.len(),
    {
        let mapper = rest.remove(0);
        assert(mapper == all[results@.len() as int]);
        let ghost before = ports.log();
        let locked = ports.lock_target(mapper.source_path.as_str());
        let ghost after_lock = ports.log();
        let outcome = match locked {
            Ok(_lock) => close_mapping(&mapper, skip_hooks, warn, ports),
            Err(err) => Err(err),
        };
        assert forall|i: int|
            old(ports).log().len() <= i < ports.log().len() && (#[trigger] ports.log()[i]) is Close implies old(
            ports,
        ).log().len() <= i - 1 && (ports.log()[i - 1] matches PortCall::Umount(m, _) && m
            == ports.log()[i]->Close_0) by {
            if i < before.len() {
                assert(ports.log()[i] == before[i]);
                assert(ports.log()[i - 1] == before[i - 1]);
            } else if i == before.len() {
                assert(ports.log()[i] == after_lock[i]);
            }
        }
        results.push((mapper, outcome));
    }
    results
}

} // verus!
