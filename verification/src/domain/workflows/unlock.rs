//! `unlock`: opens and mounts a volume, then applies its hooks.
use vstd::prelude::*;

use crate::domain::errors::{cleanup_recorded, failure_with_cleanup, DomainError};
use crate::domain::hooks::{
    bind_hook_entries, contained_somewhere, entry_views, exec_hook_rejection, parse_bind_hooks,
    exit_warned, rejection_of, resolve_bind_hook_entry, resolve_outcome, skip_warned,
    unreadable_warned, BindHookSkipReason, HookRejectionReason, HookWarning,
};
use crate::domain::mapping_name::{mapping_name, mapping_name_outcome};
use crate::domain::paths::{join_text, path_join};
use crate::domain::preflight;
use crate::domain::types::{HookFileMeta, MapperHandle};
use crate::ports::fido2_backend::Fido2Backend;
use crate::ports::filesystem_backend::FilesystemBackend;
use crate::ports::journal::{extends, hook_work, lookup, none_between, teardown, PortCall, Ports};
use crate::ports::luks_backend::LuksBackend;

verus! {

/// Whether the hooks step runs: never for a read-only unlock, whatever
/// `skip_hooks` says, and never when it is skipped.
pub open spec fn hooks_enabled(read_only: bool, skip_hooks: bool) -> bool {
    !read_only && !skip_hooks
}

pub fn hooks_run(read_only: bool, skip_hooks: bool) -> (r: bool)
    ensures
        r == hooks_enabled(read_only, skip_hooks),
{
    !read_only && !skip_hooks
}

/// The port was asked to unmount the bind-hook destination `dest`.
pub open spec fn dest_unmounted<S: FilesystemBackend>(fs: &S, dest: String) -> bool {
    exists|p: &str, u: Result<(), DomainError>|
        #[trigger] call_ensures(S::unmount_bind_hook_destination, (fs, p), u) && p@ == dest@
}

/// `r` is what undoing an unlock returns for `err`, for some answers the
/// ports gave: every applied bind-hook destination and the volume were
/// asked to unmount, and re-locking the mapping answered `closed`, which is
/// recorded on `err`.
pub open spec fn rolled_back<L: LuksBackend, S: FilesystemBackend>(
    luks: &L,
    fs: &S,
    mapper: &MapperHandle,
    applied: Seq<String>,
    err: DomainError,
    r: DomainError,
) -> bool {
    &&& forall|i: int| 0 <= i < applied.len() ==> #[trigger] dest_unmounted(fs, applied[i])
    &&& exists|u: Result<(), DomainError>| #[trigger] call_ensures(S::umount, (fs, mapper), u)
    &&& exists|closed: Result<(), DomainError>|
        #[trigger] call_ensures(L::close, (luks, mapper), closed) && cleanup_recorded(
            err,
            closed,
            "re-lock the LUKS2 mapping",
            r,
        )
}

/// `c` is the unmount of the bind-hook destination `dest`.
pub open spec fn unmounts_dest(c: PortCall, dest: Seq<char>) -> bool {
    c matches PortCall::UnmountBindHookDestination(d, _) && d == dest
}

/// From index `k` of `log` to its end, the calls rolling an unlock back
/// makes: the unmount of each applied bind-hook destination, in order,
/// then the volume's unmount, then the mapping's close, and nothing else.
pub open spec fn rollback_calls(
    log: Seq<PortCall>,
    k: int,
    applied: Seq<String>,
    mapper: MapperHandle,
) -> bool {
    &&& 0 <= k
    &&& log.len() == k + applied.len() + 2
    &&& forall|i: int|
        0 <= i < applied.len() ==> unmounts_dest(log[k + i], (#[trigger] applied[i])@)
    &&& log[k + applied.len()] matches PortCall::Umount(m, _) && m == mapper
    &&& log[k + applied.len() + 1] matches PortCall::Close(m2, _) && m2 == mapper
}

/// Undoes an unlock whose hooks step failed: unmounts every bind-hook
/// destination applied so far and the volume (both best-effort), then
/// closes the mapping. `err` stays the cause; a failed close is recorded on
/// it.
fn roll_back<L: LuksBackend, F: Fido2Backend, S: FilesystemBackend>(
    err: DomainError,
    applied: &Vec<String>,
    mapper: &MapperHandle,
    ports: &mut Ports<'_, L, F, S>,
) -> (r: DomainError)
    ensures
        final(ports).keeps(*old(ports)),
        extends(old(ports).log(), final(ports).log()),
        r == err || (r matches DomainError::RollbackCleanupAlsoFailed { original, operation, .. }
            && *original == err && operation == "re-lock the LUKS2 mapping"),
        rolled_back(old(ports).luks(), old(ports).fs(), mapper, applied@, err, r),
        rollback_calls(final(ports).log(), old(ports).log().len() as int, applied@, *mapper),
{
    let ghost n = ports.log().len() as int;
    let mut i: usize = 0;
    while i < applied.len()
        invariant
            ports.keeps(*old(ports)),
            extends(old(ports).log(), ports.log()),
            n == old(ports).log().len(),
            ports.log().len() == n + i,
            forall|j: int|
                0 <= j < i ==> unmounts_dest(ports.log()[n + j], (#[trigger] applied@[j])@),
            i <= applied@.len(),
            forall|j: int| 0 <= j < i ==> #[trigger] dest_unmounted(old(ports).fs(), applied@[j]),
        decreases applied.len() - i,
    {
        let d = applied[i].as_str();
        let ghost log_before = ports.log();
        let _ = ports.unmount_bind_hook_destination(d);
        assert forall|j: int|
            0 <= j < i + 1 implies unmounts_dest(ports.log()[n + j], (#[trigger] applied@[j])@) by {
            if j < i {
                assert(ports.log()[n + j] == log_before[n + j]);
            }
        }
        assert(dest_unmounted(old(ports).fs(), applied@[i as int]));
        i = i + 1;
    }
    let ghost log_unmounted = ports.log();
    let _ = ports.umount(mapper);
    let closed = ports.close(mapper);
    assert forall|j: int|
        0 <= j < applied@.len() implies unmounts_dest(ports.log()[n + j], (#[trigger] applied@[j])@) by {
        assert(ports.log()[n + j] == log_unmounted[n + j]);
    }
    failure_with_cleanup(err, closed, "re-lock the LUKS2 mapping")
}

/// Every destination of `applied` is inside the home directory (with its
/// source inside the volume) and was bind-mounted by the port successfully.
pub open spec fn bind_mounted<S: FilesystemBackend>(fs: &S, applied: Seq<String>) -> bool {
    forall|i: int| 0 <= i < applied.len() ==> #[trigger] dest_bind_mounted(fs, applied[i])
}

/// The port bind-mounted some source inside the volume onto `dest`, inside
/// the home directory, successfully.
pub open spec fn dest_bind_mounted<S: FilesystemBackend>(fs: &S, dest: String) -> bool {
    exists|source: &str, d: &str, b: Result<(), DomainError>|
        #[trigger] call_ensures(S::bind_mount, (fs, source, d), b) && b is Ok && d@ == dest@
            && contained_somewhere(source@, d@)
}

/// The destinations that were mounted, in order.
pub open spec fn mounted_dests(outs: Seq<Option<String>>) -> Seq<String>
    decreases outs.len(),
{
    if outs.len() == 0 {
        seq![]
    } else {
        let before = mounted_dests(outs.drop_last());
        match outs.last() {
            Some(d) => before.push(d),
            None => before,
        }
    }
}

/// `o` is what applying the entry `(source_rel, dest_rel)` yields for some
/// answers the filesystem port gave: the destination when the entry
/// resolved and the bind mount of its canonical paths went through, else
/// nothing, with `warn` told why the entry was skipped.
pub open spec fn entry_applied<S: FilesystemBackend, W: Fn(HookWarning)>(
    fs: &S,
    warn: &W,
    source_rel: Seq<char>,
    dest_rel: Seq<char>,
    root: &str,
    home: &str,
    o: Option<String>,
) -> bool {
    exists|res: Result<(String, String), BindHookSkipReason>|
        #[trigger] resolve_outcome(fs, source_rel, dest_rel, root, home, res) && match res {
            Err(reason) => o is None && skip_warned(warn, source_rel, dest_rel, reason),
            Ok(pair) => exists|sp: &str, dp: &str, b: Result<(), DomainError>|
                #[trigger] call_ensures(S::bind_mount, (fs, sp, dp), b) && sp@ == pair.0@ && dp@
                    == pair.1@ && if b is Ok {
                    o == Some(pair.1)
                } else {
                    o is None && skip_warned(
                        warn,
                        source_rel,
                        dest_rel,
                        BindHookSkipReason::BindMountFailed,
                    )
                },
        }
}

/// `applied` is, in order, the destinations of the entries that were
/// applied.
pub open spec fn entries_applied<S: FilesystemBackend, W: Fn(HookWarning)>(
    fs: &S,
    warn: &W,
    entries: Seq<(Seq<char>, Seq<char>)>,
    root: &str,
    home: &str,
    applied: Seq<String>,
) -> bool {
    exists|outs: Seq<Option<String>>|
        #[trigger] mounted_dests(outs) == applied && outs.len() == entries.len() && forall|k: int|
            0 <= k < entries.len() ==> entry_applied(
                fs,
                warn,
                entries[k].0,
                entries[k].1,
                root,
                home,
                #[trigger] outs[k],
            )
}

/// `applied` is what the bind-hooks step under `mountpoint` (for the
/// invoking user's `home`) mounted, for some answers the filesystem port
/// gave: nothing without a `bind-hooks` file; nothing, with a warning, when
/// it cannot be read; otherwise each entry in turn, as `entries_applied`
/// says.
pub open spec fn bind_hooks_applied<S: FilesystemBackend, W: Fn(HookWarning)>(
    fs: &S,
    warn: &W,
    mountpoint: &str,
    home: &str,
    applied: Seq<String>,
) -> bool {
    exists|p: &str, present: bool|
        #[trigger] call_ensures(S::path_exists, (fs, p), present) && p@ == join_text(
            mountpoint@,
            "bind-hooks"@,
        ) && if !present {
            applied.len() == 0
        } else {
            exists|q: &str, content: Option<String>|
                #[trigger] call_ensures(S::read_text_file, (fs, q), content) && q@ == p@
                    && match content {
                    None => applied.len() == 0 && unreadable_warned(warn, p@),
                    Some(text) => entries_applied(
                        fs,
                        warn,
                        bind_hook_entries(text@),
                        mountpoint,
                        home,
                        applied,
                    ),
                }
        }
}

/// Bind-mounts every entry of the volume's `bind-hooks` file that resolves
/// inside the volume and the home directory, warning (never failing) for
/// each entry skipped and for an unreadable file. Returns the destinations
/// actually mounted.
fn apply_bind_hooks<L: LuksBackend, F: Fido2Backend, S: FilesystemBackend, W: Fn(HookWarning)>(
    mountpoint: &str,
    home: &str,
    warn: &W,
    ports: &mut Ports<'_, L, F, S>,
) -> (applied: Vec<String>)
    requires
        forall|w: HookWarning| #[trigger] warn.requires((w,)),
    ensures
        final(ports).keeps(*old(ports)),
        extends(old(ports).log(), final(ports).log()),
        bind_mounted(old(ports).fs(), applied@),
        none_between(
            final(ports).log(),
            old(ports).log().len() as int,
            final(ports).log().len() as int,
            teardown(),
        ),
        bind_hooks_applied(old(ports).fs(), warn, mountpoint, home, applied@),
{
    let mut applied: Vec<String> = Vec::new();
    let bind_hooks = path_join(mountpoint, "bind-hooks");
    if !ports.path_exists(bind_hooks.as_str()) {
        return applied;
    }
    let content = match ports.read_text_file(bind_hooks.as_str()) {
        Some(content) => content,
        None => {
            let ghost unreadable = HookWarning::BindHooksFileUnreadable { path: bind_hooks };
            warn(HookWarning::BindHooksFileUnreadable { path: bind_hooks });
            assert(call_ensures(*warn, (unreadable,), ()));
            return applied;
        },
    };
    let entries = parse_bind_hooks(content.as_str());
    let ghost mut outs: Seq<Option<String>> = seq![];
    let mut i: usize = 0;
    while i < entries.len()
        invariant
            ports.keeps(*old(ports)),
            extends(old(ports).log(), ports.log()),
            none_between(ports.log(), old(ports).log().len() as int, ports.log().len() as int, teardown()),
            i <= entries@.len(),
            forall|w: HookWarning| #[trigger] warn.requires((w,)),
            bind_mounted(old(ports).fs(), applied@),
            outs.len() == i,
            mounted_dests(outs) == applied@,
            forall|k: int|
                0 <= k < i ==> entry_applied(
                    old(ports).fs(),
                    warn,
                    entries@[k].source_relative@,
                    entries@[k].dest_relative@,
                    mountpoint,
                    home,
                    #[trigger] outs[k],
                ),
        decreases entries.len() - i,
    {
        let entry = &entries[i];
        let ghost log_before = ports.log();
        let resolved = resolve_bind_hook_entry(entry, mountpoint, home, ports);
        let ghost log_mid = ports.log();
        let ghost before_outs = outs;
        match resolved {
            Ok((source, dest)) => {
                let s_str = source.as_str();
                let d_str = dest.as_str();
                let bound = ports.bind_mount(s_str, d_str);
                match bound {
                Ok(()) => {
                    assert(dest_bind_mounted(old(ports).fs(), dest));
                    proof {
                        outs = outs.push(Some(dest));
                    }
                    let ghost before = applied@;
                    applied.push(dest);
                    assert forall|j: int| 0 <= j < applied@.len() implies #[trigger] dest_bind_mounted(
                        old(ports).fs(),
                        applied@[j],
                    ) by {
                        if j < before.len() {
                            assert(applied@[j] == before[j]);
                        }
                    }
                },
                Err(_) => {
                    proof {
                        outs = outs.push(None);
                    }
                    warn(
                        HookWarning::BindHookSkipped {
                            source: entry.source_relative.clone(),
                            dest: entry.dest_relative.clone(),
                            reason: BindHookSkipReason::BindMountFailed,
                        },
                    )
                },
                }
                assert(entry_applied(
                    old(ports).fs(),
                    warn,
                    entries@[i as int].source_relative@,
                    entries@[i as int].dest_relative@,
                    mountpoint,
                    home,
                    outs[i as int],
                ));
            },
            Err(reason) => {
                proof {
                    outs = outs.push(None);
                }
                warn(
                    HookWarning::BindHookSkipped {
                        source: entry.source_relative.clone(),
                        dest: entry.dest_relative.clone(),
                        reason,
                    },
                )
            },
        }
        assert(outs.drop_last() =~= before_outs);
        assert forall|k: int| old(ports).log().len() <= k < ports.log().len() implies !teardown()(
            #[trigger] ports.log()[k],
        ) by {
            if k < log_before.len() {
                assert(ports.log()[k] == log_before[k]);
            } else if k < log_mid.len() {
                assert(ports.log()[k] == log_mid[k]);
                assert(lookup()(log_mid[k]));
            }
        }
        assert forall|k: int| 0 <= k < i + 1 implies entry_applied(
            old(ports).fs(),
            warn,
            entries@[k].source_relative@,
            entries@[k].dest_relative@,
            mountpoint,
            home,
            #[trigger] outs[k],
        ) by {
            if k < i {
                assert(outs[k] == before_outs[k]);
            }
        }
        i = i + 1;
    }
    proof {
        let views = bind_hook_entries(content@);
        assert forall|k: int| 0 <= k < views.len() implies entry_applied(
            old(ports).fs(),
            warn,
            views[k].0,
            views[k].1,
            mountpoint,
            home,
            #[trigger] outs[k],
        ) by {
            assert(entry_views(entries@)[k] == (entries@[k].source_relative@, entries@[k].dest_relative@));
        }
        assert(entries_applied(old(ports).fs(), warn, views, mountpoint, home, applied@));
    }
    applied
}

/// `r` is the guardrail's rejection of `hook` for `reason`, rolled back.
pub open spec fn rejection_rolled_back<L: LuksBackend, S: FilesystemBackend>(
    luks: &L,
    fs: &S,
    mapper: &MapperHandle,
    applied: Seq<String>,
    hook: &str,
    reason: HookRejectionReason,
    r: Result<(), DomainError>,
) -> bool {
    r is Err && exists|e: DomainError|
        #[trigger] rolled_back(luks, fs, mapper, applied, e, r->Err_0) && (e matches DomainError::HookRejected {
            path,
            reason: why,
        } && path@ == hook@ && why == reason)
}

/// `r` is what the `exec-hooks` part of unlock's hooks step returns, for
/// some answers the filesystem port gave, with `applied` already
/// bind-mounted: success without the file; a metadata or launch failure,
/// or the guardrail's rejection naming the file, each rolled back; success
/// once the hook ran with `open <mountpoint>`.
pub open spec fn open_exec_hook_outcome<L: LuksBackend, S: FilesystemBackend, W: Fn(HookWarning)>(
    luks: &L,
    fs: &S,
    warn: &W,
    mountpoint: &str,
    mapper: &MapperHandle,
    applied: Seq<String>,
    r: Result<(), DomainError>,
) -> bool {
    exists|hook: &str, present: bool|
        #[trigger] call_ensures(S::path_exists, (fs, hook), present) && hook@ == join_text(
            mountpoint@,
            "exec-hooks"@,
        ) && if !present {
            r is Ok
        } else {
            exists|meta: Result<HookFileMeta, DomainError>|
                #[trigger] call_ensures(S::hook_file_metadata, (fs, hook), meta) && match meta {
                    Err(e) => r matches Err(x) && rolled_back(luks, fs, mapper, applied, e, x),
                    Ok(m) => match rejection_of(m) {
                        Some(reason) => rejection_rolled_back(luks, fs, mapper, applied, hook, reason, r),
                        None => exists|args: &[String], status: Result<Option<i32>, DomainError>|
                            #[trigger] call_ensures(S::run_hook, (fs, hook, args), status) && args@.map_values(
                                |a: String| a@,
                            ) == seq!["open"@, mountpoint@] && match status {
                                Err(e) => r matches Err(x) && rolled_back(luks, fs, mapper, applied, e, x),
                                Ok(code) => r is Ok && (code != Some(0i32) ==> exit_warned(warn, hook@, code)),
                            },
                    },
                }
        }
}

/// `r` is what unlock's hooks step returns for some answers the ports
/// gave: a home-directory lookup failure, rolled back; otherwise, with the
/// bind-hooks applied, what the `exec-hooks` part returns.
pub open spec fn open_hooks_outcome<L: LuksBackend, S: FilesystemBackend, W: Fn(HookWarning)>(
    luks: &L,
    fs: &S,
    warn: &W,
    mountpoint: &str,
    mapper: &MapperHandle,
    r: Result<(), DomainError>,
) -> bool {
    exists|home: Result<String, DomainError>|
        #[trigger] call_ensures(S::invoking_home_dir, (fs,), home) && match home {
            Err(e) => r matches Err(x) && rolled_back(luks, fs, mapper, Seq::empty(), e, x),
            Ok(hd) => exists|applied: Seq<String>, h: &str|
                #[trigger] bind_hooks_applied(fs, warn, mountpoint, h, applied) && h@ == hd@
                    && bind_mounted(fs, applied) && open_exec_hook_outcome(
                    luks,
                    fs,
                    warn,
                    mountpoint,
                    mapper,
                    applied,
                    r,
                ),
        }
}

/// The hooks step of `unlock`: bind-hooks first (best-effort), then the
/// `exec-hooks` file, which must pass the guardrail before it is run with
/// `open <mountpoint>`; a non-zero exit only warns. Any failure here rolls
/// the whole unlock back.
fn run_hooks_step<L: LuksBackend, F: Fido2Backend, S: FilesystemBackend, W: Fn(HookWarning)>(
    mountpoint: &str,
    mapper: &MapperHandle,
    warn: &W,
    ports: &mut Ports<'_, L, F, S>,
) -> (r: Result<(), DomainError>)
    requires
        forall|w: HookWarning| #[trigger] warn.requires((w,)),
    ensures
        final(ports).keeps(*old(ports)),
        extends(old(ports).log(), final(ports).log()),
        open_hooks_outcome(old(ports).luks(), old(ports).fs(), warn, mountpoint, mapper, r),
        r is Ok ==> none_between(
            final(ports).log(),
            old(ports).log().len() as int,
            final(ports).log().len() as int,
            teardown(),
        ),
        r is Err ==> exists|k: int, applied: Seq<String>|
            #[trigger] rollback_calls(final(ports).log(), k, applied, *mapper) && old(ports).log().len()
                <= k && none_between(final(ports).log(), old(ports).log().len() as int, k, teardown()),
{
    let home = match ports.invoking_home_dir() {
        Ok(home) => home,
        Err(err) => {
            let none: Vec<String> = Vec::new();
            let x = roll_back(err, &none, mapper, ports);
            assert(none@ =~= Seq::<String>::empty());
            return Err(x);
        },
    };
    let applied = apply_bind_hooks(mountpoint, home.as_str(), warn, ports);
    let exec_hooks = path_join(mountpoint, "exec-hooks");
    let hook: &str = exec_hooks.as_str();
    let present = ports.path_exists(hook);
    if present {
        let meta = match ports.hook_file_metadata(hook) {
            Ok(meta) => meta,
            Err(err) => return Err(roll_back(err, &applied, mapper, ports)),
        };
        if let Some(reason) = exec_hook_rejection(&meta) {
            let err = DomainError::HookRejected { path: exec_hooks, reason };
            let ghost rejected = err;
            let x = roll_back(err, &applied, mapper, ports);
            assert(rolled_back(old(ports).luks(), old(ports).fs(), mapper, applied@, rejected, x));
            return Err(x);
        }
        let args = vec![String::from_str("open"), String::from_str(mountpoint)];
        assert(args@.map_values(|a: String| a@) =~= seq!["open"@, mountpoint@]);
        let status = match ports.run_hook(hook, args.as_slice()) {
            Ok(status) => status,
            Err(err) => return Err(roll_back(err, &applied, mapper, ports)),
        };
        if status != Some(0i32) {
            warn(HookWarning::ExecHookNonZeroExit { path: exec_hooks, exit_code: status });
        }
    }
    Ok(())
}

/// `r` is what unlock returns once the LUKS port answered `opened`, for
/// some answers the ports then gave: the open's error; a mount failure with
/// the re-lock's outcome recorded on it; otherwise the mount point, unless
/// the hooks step (when it runs) failed.
pub open spec fn unlock_after_open<L: LuksBackend, S: FilesystemBackend, W: Fn(HookWarning)>(
    luks: &L,
    fs: &S,
    warn: &W,
    opened: Result<MapperHandle, DomainError>,
    read_only: bool,
    skip_hooks: bool,
    r: Result<String, DomainError>,
) -> bool {
    match opened {
        Err(e) => r == Err::<String, DomainError>(e),
        Ok(mapper) => exists|mounted: Result<String, DomainError>|
            #[trigger] call_ensures(S::mount, (fs, &mapper, read_only), mounted) && match mounted {
                Err(e) => exists|closed: Result<(), DomainError>|
                    #[trigger] call_ensures(L::close, (luks, &mapper), closed) && (r matches Err(x)
                        && cleanup_recorded(e, closed, "re-lock the LUKS2 mapping", x)),
                Ok(mountpoint) => if hooks_enabled(read_only, skip_hooks) {
                    exists|m: &str, h: Result<(), DomainError>|
                        #[trigger] open_hooks_outcome(luks, fs, warn, m, &mapper, h) && m@ == mountpoint@
                            && match h {
                            Err(e) => r == Err::<String, DomainError>(e),
                            Ok(_) => r == Ok::<String, DomainError>(mountpoint),
                        }
                } else {
                    r == Ok::<String, DomainError>(mountpoint)
                },
            },
    }
}

/// Unlocks the volume at `path` and mounts it, returning the mount point.
/// `read_only` reaches both the mapping and the mount. A failed mount
/// closes the mapping again. Unless `read_only` or `skip_hooks`, the hooks
/// step then runs; `warn` hears its non-fatal events.
pub fn run<L: LuksBackend, F: Fido2Backend, S: FilesystemBackend, W: Fn(HookWarning)>(
    path: &str,
    read_only: bool,
    skip_hooks: bool,
    warn: &W,
    ports: &mut Ports<'_, L, F, S>,
) -> (r: Result<String, DomainError>)
    requires
        forall|w: HookWarning| #[trigger] warn.requires((w,)),
    ensures
        final(ports).keeps(*old(ports)),
        extends(old(ports).log(), final(ports).log()),
        preflight::opens_with_preflight(old(ports).log(), final(ports).log(), None),
        exists|pre: Result<(), DomainError>|
            #[trigger] preflight::check_outcome(old(ports).luks(), old(ports).fido2(), old(ports).fs(), None, pre) && match pre {
                Err(e) => r == Err::<String, DomainError>(e),
                Ok(_) => exists|lock: Result<S::LockGuard, DomainError>|
                    #[trigger] call_ensures(S::lock_target, (old(ports).fs(), path), lock) && match lock {
                        Err(e) => r == Err::<String, DomainError>(e),
                        Ok(_) => exists|name: Result<String, DomainError>|
                            #[trigger] mapping_name_outcome(old(ports).fs(), path, name) && match name {
                                Err(e) => r == Err::<String, DomainError>(e),
                                Ok(n) => exists|nm: &str, opened: Result<MapperHandle, DomainError>|
                                    #[trigger] call_ensures(L::open, (old(ports).luks(), path, nm, read_only), opened)
                                        && nm@ == n@ && unlock_after_open(
                                        old(ports).luks(),
                                        old(ports).fs(),
                                        warn,
                                        opened,
                                        read_only,
                                        skip_hooks,
                                        r,
                                    ),
                            },
                    },
            },
        !hooks_enabled(read_only, skip_hooks) ==> none_between(
            final(ports).log(),
            old(ports).log().len() as int,
            final(ports).log().len() as int,
            hook_work(),
        ),
{
    preflight::check(ports, None)?;
    let _lock = ports.lock_target(path)?;
    let name = mapping_name(ports, path)?;
    let mapper = ports.open(path, name.as_str(), read_only)?;
    let mountpoint = match ports.mount(&mapper, read_only) {
        Ok(mountpoint) => mountpoint,
        Err(err) => {
            let closed = ports.close(&mapper);
            return Err(failure_with_cleanup(err, closed, "re-lock the LUKS2 mapping"));
        },
    };
    if hooks_run(read_only, skip_hooks) {
        let m: &str = mountpoint.as_str();
        run_hooks_step(m, &mapper, warn, ports)?;
    }
    Ok(mountpoint)
}

/// A read-only unlock never runs hooks, and `skip_hooks` always skips them;
/// a writable unlock that does not skip them runs them.
pub proof fn law_read_only_never_runs_hooks(skip_hooks: bool, read_only: bool)
    ensures
        !hooks_enabled(true, skip_hooks),
        !hooks_enabled(read_only, true),
        hooks_enabled(false, false),
{
}

} // verus!
