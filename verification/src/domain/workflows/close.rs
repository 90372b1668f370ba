//! `close`: runs the volume's hooks in reverse, unmounts it and re-locks
//! its mapping.
use vstd::prelude::*;

use crate::domain::errors::DomainError;
use crate::domain::hooks::{
    bind_hook_entries, entry_views, exec_hook_rejection, exit_warned, parse_bind_hooks, rejection_of,
    resolve_bind_hook_entry, resolve_outcome, unreadable_warned, BindHookSkipReason, HookWarning,
};
use crate::domain::mapping_name::{mapping_name, mapping_name_outcome};
use crate::domain::paths::{join_text, path_join, volume_name, volume_name_text};
use crate::domain::preflight;
use crate::domain::types::{device_node_text, HookFileMeta, MapperHandle};
use crate::ports::fido2_backend::Fido2Backend;
use crate::ports::filesystem_backend::FilesystemBackend;
use crate::ports::journal::{
    extends, lemma_none_between_empty, lemma_none_between_extend, lemma_none_between_push, lookup,
    none_between, releasing, PortCall, Ports,
};
use crate::ports::luks_backend::LuksBackend;
use crate::text::{contains, has_infix};

verus! {

/// Whether `err` is the "already unmounted" report a retry after a partial
/// close gets: an adapter failure mentioning `not currently mounted`.
pub open spec fn not_currently_mounted(err: DomainError) -> bool {
    err matches DomainError::AdapterFailure(m) && has_infix(m@, "not currently mounted"@)
}

pub fn is_not_currently_mounted(err: &DomainError) -> (r: bool)
    ensures
        r == not_currently_mounted(*err),
{
    match err {
        DomainError::AdapterFailure(m) => contains(m.as_str(), "not currently mounted"),
        _ => false,
    }
}

/// The `bind-hooks` entry `(source_rel, dest_rel)` was torn down, for some
/// answers the filesystem port gave: when it still resolves, its
/// destination was asked to unmount.
pub open spec fn entry_torn_down<S: FilesystemBackend>(
    fs: &S,
    source_rel: Seq<char>,
    dest_rel: Seq<char>,
    root: &str,
    home: &str,
) -> bool {
    exists|res: Result<(String, String), BindHookSkipReason>|
        #[trigger] resolve_outcome(fs, source_rel, dest_rel, root, home, res) && (res matches Ok(
            pair,
        ) ==> exists|d: &str, u: Result<(), DomainError>|
            #[trigger] call_ensures(S::unmount_bind_hook_destination, (fs, d), u) && d@ == pair.1@)
}

/// Every entry of `entries` was torn down.
pub open spec fn entries_torn_down<S: FilesystemBackend>(
    fs: &S,
    entries: Seq<(Seq<char>, Seq<char>)>,
    root: &str,
    home: &str,
) -> bool {
    forall|k: int|
        0 <= k < entries.len() ==> #[trigger] entry_torn_down(fs, entries[k].0, entries[k].1, root, home)
}

/// What tearing the bind hooks under `mountpoint` down did, for some
/// answers the filesystem port gave: nothing without a `bind-hooks` file; a
/// warning when it cannot be read; nothing when the home directory is not
/// found; otherwise every entry torn down.
pub open spec fn bind_hooks_torn_down<S: FilesystemBackend, W: Fn(HookWarning)>(
    fs: &S,
    warn: &W,
    mountpoint: &str,
) -> bool {
    exists|p: &str, present: bool|
        #[trigger] call_ensures(S::path_exists, (fs, p), present) && p@ == join_text(
            mountpoint@,
            "bind-hooks"@,
        ) && (present ==> exists|q: &str, content: Option<String>|
            #[trigger] call_ensures(S::read_text_file, (fs, q), content) && q@ == p@ && match content {
                None => unreadable_warned(warn, p@),
                Some(text) => exists|home: Result<String, DomainError>|
                    #[trigger] call_ensures(S::invoking_home_dir, (fs,), home) && (home matches Ok(
                        hd,
                    ) ==> exists|h: &str|
                        #[trigger] entries_torn_down(fs, bind_hook_entries(text@), mountpoint, h) && h@
                            == hd@),
            })
}

/// The bind hooks under the mount point `mountpoint` were torn down.
pub open spec fn torn_down_under<S: FilesystemBackend, W: Fn(HookWarning)>(
    fs: &S,
    warn: &W,
    mountpoint: String,
) -> bool {
    exists|m: &str| #[trigger] bind_hooks_torn_down(fs, warn, m) && m@ == mountpoint@
}

/// Unmounts each `bind-hooks` destination that still resolves, ignoring
/// every per-entry failure; only an unreadable file is warned about.
fn teardown_bind_hooks<L: LuksBackend, F: Fido2Backend, S: FilesystemBackend, W: Fn(HookWarning)>(
    mountpoint: &str,
    warn: &W,
    ports: &mut Ports<'_, L, F, S>,
)
    requires
        forall|w: HookWarning| #[trigger] warn.requires((w,)),
    ensures
        final(ports).keeps(*old(ports)),
        extends(old(ports).log(), final(ports).log()),
        none_between(
            final(ports).log(),
            old(ports).log().len() as int,
            final(ports).log().len() as int,
            releasing(),
        ),
        none_between(
            final(ports).log(),
            old(ports).log().len() as int,
            final(ports).log().len() as int,
            exec_hook_work(),
        ),
        bind_hooks_torn_down(old(ports).fs(), warn, mountpoint),
{
    let bind_hooks = path_join(mountpoint, "bind-hooks");
    if !ports.path_exists(bind_hooks.as_str()) {
        return;
    }
    let content = match ports.read_text_file(bind_hooks.as_str()) {
        Some(content) => content,
        None => {
            let ghost unreadable = HookWarning::BindHooksFileUnreadable { path: bind_hooks };
            warn(HookWarning::BindHooksFileUnreadable { path: bind_hooks });
            assert(call_ensures(*warn, (unreadable,), ()));
            return;
        },
    };
    let home = match ports.invoking_home_dir() {
        Ok(home) => home,
        Err(_) => return,
    };
    let home_dir: &str = home.as_str();
    let entries = parse_bind_hooks(content.as_str());
    let mut i: usize = 0;
    while i < entries.len()
        invariant
            ports.keeps(*old(ports)),
            extends(old(ports).log(), ports.log()),
            none_between(ports.log(), old(ports).log().len() as int, ports.log().len() as int, releasing()),
            none_between(
                ports.log(),
                old(ports).log().len() as int,
                ports.log().len() as int,
                exec_hook_work(),
            ),
            i <= entries@.len(),
            forall|k: int|
                0 <= k < i ==> #[trigger] entry_torn_down(
                    old(ports).fs(),
                    entries@[k].source_relative@,
                    entries@[k].dest_relative@,
                    mountpoint,
                    home_dir,
                ),
        decreases entries.len() - i,
    {
        let ghost before = ports.log();
        let resolved = resolve_bind_hook_entry(&entries[i], mountpoint, home_dir, ports);
        proof {
            assert forall|k: int| before.len() <= k < ports.log().len() implies !releasing()(
                #[trigger] ports.log()[k],
            ) by {
                assert(lookup()(ports.log()[k]));
            }
            lemma_none_between_extend(before, ports.log(), old(ports).log().len() as int, releasing());
            assert forall|k: int| before.len() <= k < ports.log().len() implies !exec_hook_work()(
                #[trigger] ports.log()[k],
            ) by {
                assert(lookup()(ports.log()[k]));
            }
            lemma_none_between_extend(
                before,
                ports.log(),
                old(ports).log().len() as int,
                exec_hook_work(),
            );
        }
        if let Ok((_, dest)) = resolved {
            let ghost mid = ports.log();
            let _ = ports.unmount_bind_hook_destination(dest.as_str());
            proof {
                lemma_none_between_push(
                    mid,
                    old(ports).log().len() as int,
                    ports.log().last(),
                    releasing(),
                );
                lemma_none_between_push(
                    mid,
                    old(ports).log().len() as int,
                    ports.log().last(),
                    exec_hook_work(),
                );
            }
        }
        assert(entry_torn_down(
            old(ports).fs(),
            entries@[i as int].source_relative@,
            entries@[i as int].dest_relative@,
            mountpoint,
            home_dir,
        ));
        i = i + 1;
    }
    proof {
        let views = bind_hook_entries(content@);
        assert forall|k: int| 0 <= k < views.len() implies #[trigger] entry_torn_down(
            old(ports).fs(),
            views[k].0,
            views[k].1,
            mountpoint,
            home_dir,
        ) by {
            assert(entry_views(entries@)[k] == (entries@[k].source_relative@, entries@[k].dest_relative@));
            assert(entry_torn_down(
                old(ports).fs(),
                entries@[k].source_relative@,
                entries@[k].dest_relative@,
                mountpoint,
                home_dir,
            ));
        }
        assert(entries_torn_down(old(ports).fs(), views, mountpoint, home_dir));
    }
}

/// The arguments `exec-hooks` gets on close.
pub open spec fn close_hook_args(mountpoint: Seq<char>, mapper: MapperHandle) -> Seq<Seq<char>> {
    seq![
        "close"@,
        mountpoint,
        volume_name_text(mapper.source_path@),
        mapper.source_path@,
        device_node_text(mapper.name@),
    ]
}

/// `r` is what the close hooks step returns for some answers the
/// filesystem port gave: the mount point lookup's error; otherwise, once
/// the bind hooks were torn down, success when there is no `exec-hooks`
/// file, else the metadata lookup's error, the guardrail's rejection
/// naming the file, the hook launch's error, or success once the hook ran
/// with `close_hook_args` (a non-zero exit warned about).
pub open spec fn close_hooks_outcome<S: FilesystemBackend, W: Fn(HookWarning)>(
    fs: &S,
    warn: &W,
    mapper: &MapperHandle,
    r: Result<(), DomainError>,
) -> bool {
    exists|mp: Result<String, DomainError>|
        #[trigger] call_ensures(S::mount_point_of, (fs, mapper), mp) && match mp {
            Err(e) => r == Err::<(), DomainError>(e),
            Ok(mountpoint) => torn_down_under(fs, warn, mountpoint) && exists|hook: &str, present: bool|
                #[trigger] call_ensures(S::path_exists, (fs, hook), present) && hook@ == join_text(
                    mountpoint@,
                    "exec-hooks"@,
                ) && if !present {
                    r is Ok
                } else {
                    exists|meta: Result<HookFileMeta, DomainError>|
                        #[trigger] call_ensures(S::hook_file_metadata, (fs, hook), meta) && match meta {
                            Err(e) => r == Err::<(), DomainError>(e),
                            Ok(m) => match rejection_of(m) {
                                Some(reason) => r matches Err(
                                    DomainError::HookRejected { path, reason: why },
                                ) && path@ == hook@ && why == reason,
                                None => exists|args: &[String], status: Result<Option<i32>, DomainError>|
                                    #[trigger] call_ensures(S::run_hook, (fs, hook, args), status)
                                        && args@.map_values(|a: String| a@) == close_hook_args(
                                        mountpoint@,
                                        *mapper,
                                    ) && match status {
                                        Err(e) => r == Err::<(), DomainError>(e),
                                        Ok(code) => r is Ok && (code != Some(0i32) ==> exit_warned(
                                            warn,
                                            hook@,
                                            code,
                                        )),
                                    },
                            },
                        }
                },
        }
}

/// Whether a failure stops a close: anything but "already unmounted".
pub open spec fn stops_close(r: Result<(), DomainError>) -> bool {
    match r {
        Ok(_) => false,
        Err(e) => !not_currently_mounted(e),
    }
}

/// `r` is what closing `mapper` returns once its hooks are done, for some
/// answers the ports gave: a stopping unmount failure, else what re-locking
/// answered.
pub open spec fn unmount_and_relock_outcome<L: LuksBackend, S: FilesystemBackend>(
    luks: &L,
    fs: &S,
    mapper: &MapperHandle,
    r: Result<(), DomainError>,
) -> bool {
    exists|u: Result<(), DomainError>|
        #[trigger] call_ensures(S::umount, (fs, mapper), u) && if stops_close(u) {
            r == u
        } else {
            call_ensures(L::close, (luks, mapper), r)
        }
}

/// `r` is what `close_mapping` returns for some answers the ports gave.
pub open spec fn close_sequence<L: LuksBackend, S: FilesystemBackend, W: Fn(HookWarning)>(
    luks: &L,
    fs: &S,
    warn: &W,
    mapper: &MapperHandle,
    skip_hooks: bool,
    r: Result<(), DomainError>,
) -> bool {
    if skip_hooks {
        unmount_and_relock_outcome(luks, fs, mapper, r)
    } else {
        exists|h: Result<(), DomainError>|
            #[trigger] close_hooks_outcome(fs, warn, mapper, h) && if stops_close(h) {
                r == h
            } else {
                unmount_and_relock_outcome(luks, fs, mapper, r)
            }
    }
}

/// Calls that inspect or run an `exec-hooks` file.
pub open spec fn exec_hook_work() -> spec_fn(PortCall) -> bool {
    |c: PortCall| c is HookFileMetadata || c is RunHook
}

/// Calls that un-bind a `bind-hooks` destination.
pub open spec fn unbinding() -> spec_fn(PortCall) -> bool {
    |c: PortCall| c is UnmountBindHookDestination
}

/// From index `n` of `log` on, every bind-hook destination is un-bound
/// (before index `b`) before `exec-hooks` is inspected or run (from `b`
/// on).
pub open spec fn unbinds_then_runs(log: Seq<PortCall>, n: int, b: int) -> bool {
    &&& n <= b <= log.len()
    &&& none_between(log, n, b, exec_hook_work())
    &&& none_between(log, b, log.len() as int, unbinding())
}

/// The hooks step of `close`, the reverse of unlock's: the bind-hook
/// destinations are un-bound first, then a guardrail-passing `exec-hooks`
/// runs with `close <mountpoint> <volume name> <source path> <mapper
/// device>` (a non-zero exit only warns). A guardrail rejection fails the
/// step before the volume itself is unmounted.
pub fn run_hooks_step<L: LuksBackend, F: Fido2Backend, S: FilesystemBackend, W: Fn(HookWarning)>(
    mapper: &MapperHandle,
    warn: &W,
    ports: &mut Ports<'_, L, F, S>,
) -> (r: Result<(), DomainError>)
    requires
        forall|w: HookWarning| #[trigger] warn.requires((w,)),
    ensures
        final(ports).keeps(*old(ports)),
        extends(old(ports).log(), final(ports).log()),
        close_hooks_outcome(old(ports).fs(), warn, mapper, r),
        none_between(
            final(ports).log(),
            old(ports).log().len() as int,
            final(ports).log().len() as int,
            releasing(),
        ),
        exists|b: int| #[trigger] unbinds_then_runs(final(ports).log(), old(ports).log().len() as int, b),
{
    let ghost n = ports.log().len() as int;
    let found = ports.mount_point_of(mapper);
    let mountpoint = match found {
        Ok(mountpoint) => mountpoint,
        Err(e) => {
            proof {
                assert(unbinds_then_runs(ports.log(), n, ports.log().len() as int));
            }
            return Err(e);
        },
    };
    let ghost looked_up = ports.log();
    teardown_bind_hooks(mountpoint.as_str(), warn, ports);
    let ghost b = ports.log().len() as int;
    let ghost unbound = ports.log();
    proof {
        assert forall|i: int| n <= i < b implies !exec_hook_work()(#[trigger] ports.log()[i]) by {
            if i < looked_up.len() {
                assert(ports.log()[i] == looked_up[i]);
            }
        }
        assert(unbinds_then_runs(ports.log(), n, b));
    }
    let name = volume_name(mapper.source_path.as_str());
    let exec_hooks = path_join(mountpoint.as_str(), "exec-hooks");
    let hook: &str = exec_hooks.as_str();
    let present = ports.path_exists(hook);
    if present {
        let meta = match ports.hook_file_metadata(hook) {
            Ok(meta) => meta,
            Err(e) => {
                proof {
                    lemma_runs_after_unbinding(unbound, ports.log(), n, b);
                }
                return Err(e);
            },
        };
        if let Some(reason) = exec_hook_rejection(&meta) {
            proof {
                lemma_runs_after_unbinding(unbound, ports.log(), n, b);
            }
            return Err(DomainError::HookRejected { path: exec_hooks, reason });
        }
        let args = vec![
            String::from_str("close"),
            mountpoint.clone(),
            name,
            mapper.source_path.clone(),
            mapper.device_node(),
        ];
        assert(args@.map_values(|a: String| a@) =~= close_hook_args(mountpoint@, *mapper));
        let status = match ports.run_hook(hook, args.as_slice()) {
            Ok(status) => status,
            Err(e) => {
                proof {
                    lemma_runs_after_unbinding(unbound, ports.log(), n, b);
                }
                return Err(e);
            },
        };
        if status != Some(0i32) {
            warn(HookWarning::ExecHookNonZeroExit { path: exec_hooks, exit_code: status });
        }
    }
    proof {
        lemma_runs_after_unbinding(unbound, ports.log(), n, b);
    }
    Ok(())
}

/// Calls appended after the un-binding that are not themselves un-bindings
/// keep the step un-binding first.
proof fn lemma_runs_after_unbinding(unbound: Seq<PortCall>, log: Seq<PortCall>, n: int, b: int)
    requires
        0 <= n,
        b == unbound.len(),
        unbinds_then_runs(unbound, n, b),
        extends(unbound, log),
        none_between(log, b, log.len() as int, unbinding()),
    ensures
        unbinds_then_runs(log, n, b),
{
    assert forall|i: int| n <= i < b implies !exec_hook_work()(#[trigger] log[i]) by {
        assert(log[i] == unbound[i]);
    }
}

/// From index `n` of `log` on, the calls closing one mapping make: nothing
/// is signalled, unmounted or re-locked before the hooks step is over; the
/// volume is unmounted once, and the mapping re-locked only as the very
/// last call, right after that unmount.
pub open spec fn close_calls(log: Seq<PortCall>, n: int) -> bool {
    &&& forall|i: int| n <= i < log.len() && (#[trigger] log[i]) is Close ==> i == log.len() - 1
        && n <= i - 1 && log[i - 1] is Umount
    &&& forall|i: int| n <= i < log.len() && releasing()(#[trigger] log[i]) ==> i >= log.len() - 2
}

/// Every re-lock in `log` from index `n` on comes right after the unmount
/// of the same mapping.
pub open spec fn relocks_follow_unmounts(log: Seq<PortCall>, n: int) -> bool {
    forall|i: int|
        n <= i < log.len() && (#[trigger] log[i]) is Close ==> n <= i - 1 && (log[i
            - 1] matches PortCall::Umount(m, _) && m == log[i]->Close_0)
}

/// The close sequence of one open mapping: hooks (unless skipped), unmount,
/// re-lock. An "already unmounted" report from the hooks step or the
/// unmount is taken as done, so a retry after a partial close completes;
/// any other failure stops before the mapping is re-locked.
pub fn close_mapping<L: LuksBackend, F: Fido2Backend, S: FilesystemBackend, W: Fn(HookWarning)>(
    mapper: &MapperHandle,
    skip_hooks: bool,
    warn: &W,
    ports: &mut Ports<'_, L, F, S>,
) -> (r: Result<(), DomainError>)
    requires
        forall|w: HookWarning| #[trigger] warn.requires((w,)),
    ensures
        final(ports).keeps(*old(ports)),
        extends(old(ports).log(), final(ports).log()),
        close_sequence(old(ports).luks(), old(ports).fs(), warn, mapper, skip_hooks, r),
        close_calls(final(ports).log(), old(ports).log().len() as int),
        relocks_follow_unmounts(final(ports).log(), old(ports).log().len() as int),
{
    let ghost n = ports.log().len() as int;
    proof {
        lemma_none_between_empty(ports.log(), releasing());
    }
    if !skip_hooks {
        match run_hooks_step(mapper, warn, ports) {
            Ok(()) => {},
            Err(err) => {
                if !is_not_currently_mounted(&err) {
                    return Err(err);
                }
            },
        }
    }
    let ghost quiet = ports.log();
    assert(none_between(quiet, n, quiet.len() as int, releasing()));
    match ports.umount(mapper) {
        Ok(()) => {},
        Err(err) => {
            if !is_not_currently_mounted(&err) {
                assert forall|i: int| n <= i < ports.log().len() && releasing()(
                    #[trigger] ports.log()[i],
                ) implies i >= ports.log().len() - 2 by {
                    if i < quiet.len() {
                        assert(ports.log()[i] == quiet[i]);
                    }
                }
                assert forall|i: int| n <= i < ports.log().len() && (#[trigger] ports.log()[i]) is Close
                    implies false by {
                    if i < quiet.len() {
                        assert(ports.log()[i] == quiet[i]);
                    }
                }
                return Err(err);
            }
        },
    }
    let ghost unmounted = ports.log();
    let r = ports.close(mapper);
    assert forall|i: int| n <= i < ports.log().len() && releasing()(#[trigger] ports.log()[i]) implies i
        >= ports.log().len() - 2 by {
        if i < quiet.len() {
            assert(ports.log()[i] == quiet[i]);
        }
    }
    assert forall|i: int| n <= i < ports.log().len() && (#[trigger] ports.log()[i]) is Close implies i
        == ports.log().len() - 1 && n <= i - 1 && (ports.log()[i - 1] matches PortCall::Umount(m, _)
        && m == ports.log()[i]->Close_0) by {
        if i < quiet.len() {
            assert(ports.log()[i] == quiet[i]);
        } else if i == quiet.len() {
            assert(ports.log()[i] == unmounted[i]);
        }
    }
    r
}

/// Closes the volume at `path`: its mapping is rebuilt from the mapping
/// name derived from the path, then closed by `close_mapping`.
pub fn run<L: LuksBackend, F: Fido2Backend, S: FilesystemBackend, W: Fn(HookWarning)>(
    path: &str,
    skip_hooks: bool,
    warn: &W,
    ports: &mut Ports<'_, L, F, S>,
) -> (r: Result<(), DomainError>)
    requires
        forall|w: HookWarning| #[trigger] warn.requires((w,)),
    ensures
        final(ports).keeps(*old(ports)),
        extends(old(ports).log(), final(ports).log()),
        preflight::opens_with_preflight(old(ports).log(), final(ports).log(), None),
        close_calls(final(ports).log(), old(ports).log().len() as int),
        relocks_follow_unmounts(final(ports).log(), old(ports).log().len() as int),
        exists|pre: Result<(), DomainError>|
            #[trigger] preflight::check_outcome(old(ports).luks(), old(ports).fido2(), old(ports).fs(), None, pre) && match pre {
                Err(e) => r == Err::<(), DomainError>(e),
                Ok(_) => exists|lock: Result<S::LockGuard, DomainError>|
                    #[trigger] call_ensures(S::lock_target, (old(ports).fs(), path), lock) && match lock {
                        Err(e) => r == Err::<(), DomainError>(e),
                        Ok(_) => exists|name: Result<String, DomainError>|
                            #[trigger] mapping_name_outcome(old(ports).fs(), path, name) && match name {
                                Err(e) => r == Err::<(), DomainError>(e),
                                Ok(n) => exists|mapper: MapperHandle|
                                    #[trigger] close_sequence(old(ports).luks(), old(ports).fs(), warn, &mapper, skip_hooks, r)
                                        && mapper.name == n && mapper.source_path@ == path@,
                            },
                    },
            },
{
    preflight::check(ports, None)?;
    let _lock = ports.lock_target(path)?;
    let name = mapping_name(ports, path)?;
    let mapper = MapperHandle { name, source_path: String::from_str(path) };
    close_mapping(&mapper, skip_hooks, warn, ports)
}

} // verus!
