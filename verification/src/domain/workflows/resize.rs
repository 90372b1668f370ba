//! `resize`: grows a volume — backing file, then LUKS2 mapping, then
//! filesystem, in that order. Grow-only.
use vstd::prelude::*;

use crate::domain::errors::{debug_of, DomainError};
use crate::domain::mapping_name::{mapping_name, mapping_name_outcome};
use crate::domain::preflight;
use crate::domain::progress::{resize_announced, ResizeStage};
use crate::domain::types::{device_node_text, Filesystem, MapperHandle};
use crate::ports::fido2_backend::Fido2Backend;
use crate::ports::filesystem_backend::FilesystemBackend;
use crate::ports::journal::{extends, PortCall, Ports};
use crate::ports::luks_backend::LuksBackend;
use crate::text::{concat, decimal, push_decimal};

verus! {

/// Btrfs's own resize refuses any resulting size under 256 MiB.
pub const MIN_BTRFS_RESIZE_BYTES: u64 = 256 * 1024 * 1024;

/// The first check's refusal `e`.
pub open spec fn before_open_refusal(
    path: Seq<char>,
    new_size: u64,
    device_backed: bool,
    current: u64,
    e: DomainError,
) -> bool {
    if device_backed {
        e matches DomainError::DeviceSizeExceedsCapacity { path: p, requested, capacity } && p@ == path
            && requested == new_size && capacity == current
    } else {
        e matches DomainError::ResizeMustGrow { path: p, requested, current_size } && p@ == path
            && requested == new_size && current_size == current
    }
}

/// The first, pre-open grow-only check. `current` is the device's capacity
/// for a device-backed volume and the backing file's length otherwise: a
/// device cannot grow past its capacity, and a backing file may only be
/// asked to stay or grow (an equal size is a retry of an interrupted grow,
/// left to the second check).
pub fn check_grow_before_open(path: &str, new_size: u64, device_backed: bool, current: u64) -> (r:
    Result<(), DomainError>)
    ensures
        r is Ok <==> (if device_backed {
            new_size <= current
        } else {
            new_size >= current
        }),
        device_backed && new_size > current ==> (r matches Err(
            DomainError::DeviceSizeExceedsCapacity { path: p, requested, capacity },
        ) && p@ == path@ && requested == new_size && capacity == current),
        !device_backed && new_size < current ==> (r matches Err(
            DomainError::ResizeMustGrow { path: p, requested, current_size },
        ) && p@ == path@ && requested == new_size && current_size == current),
        r matches Err(e) ==> before_open_refusal(path@, new_size, device_backed, current, e),
{
    if device_backed {
        if new_size > current {
            return Err(
                DomainError::DeviceSizeExceedsCapacity {
                    path: String::from_str(path),
                    requested: new_size,
                    capacity: current,
                },
            );
        }
    } else if new_size < current {
        return Err(
            DomainError::ResizeMustGrow {
                path: String::from_str(path),
                requested: new_size,
                current_size: current,
            },
        );
    }
    Ok(())
}

/// Refuses a file-backed target that is not itself a regular file (a
/// symlink, say) before anything else touches it.
pub fn check_regular_backing_file(path: &str, is_regular: bool) -> (r: Result<(), DomainError>)
    ensures
        is_regular ==> r is Ok,
        !is_regular ==> (r matches Err(DomainError::AdapterFailure(m)) && m@ == path@
            + " is not a regular file — refusing to grow it"@),
{
    if is_regular {
        Ok(())
    } else {
        Err(DomainError::AdapterFailure(concat(path, " is not a regular file — refusing to grow it")))
    }
}

/// The volume's true current size: what its filesystem fills, plus the
/// LUKS2 header in front of it (raw size minus the mapping's payload).
pub open spec fn provisioned_size(fs_size: u64, raw: u64, payload: u64) -> int {
    let header = if raw > payload {
        raw - payload
    } else {
        0
    };
    let total = fs_size + header;
    if total > u64::MAX {
        u64::MAX as int
    } else {
        total
    }
}

pub fn current_provisioned_size(fs_size: u64, raw: u64, payload: u64) -> (r: u64)
    ensures
        r == provisioned_size(fs_size, raw, payload),
{
    fs_size.saturating_add(raw.saturating_sub(payload))
}

/// The smallest size `fs` can be grown to (only Btrfs has one of its own).
pub open spec fn resize_floor_of(fs: Filesystem) -> u64 {
    match fs {
        Filesystem::Btrfs => MIN_BTRFS_RESIZE_BYTES,
        _ => 0,
    }
}

/// The second check's refusal `e`.
pub open spec fn grow_refusal(
    path: Seq<char>,
    new_size: u64,
    current: int,
    filesystem: Filesystem,
    e: DomainError,
) -> bool {
    if new_size <= current {
        e matches DomainError::ResizeMustGrow { path: p, requested, current_size } && p@ == path
            && requested == new_size && current_size == current
    } else {
        e matches DomainError::DeviceTooSmall { path: p, size } && p@ == path && size == new_size
    }
}

/// The second, authoritative grow-only check, on the open volume: the new
/// size must exceed the provisioned size, and must reach the filesystem's
/// own resize floor.
pub fn check_grow_after_open(path: &str, new_size: u64, current: u64, filesystem: Filesystem) -> (r:
    Result<(), DomainError>)
    ensures
        r is Ok <==> grow_allowed(new_size, current as int, filesystem),
        new_size <= current ==> (r matches Err(
            DomainError::ResizeMustGrow { path: p, requested, current_size },
        ) && p@ == path@ && requested == new_size && current_size == current),
        new_size > current && new_size < resize_floor_of(filesystem) ==> (r matches Err(
            DomainError::DeviceTooSmall { path: p, size },
        ) && p@ == path@ && size == new_size),
        r matches Err(e) ==> grow_refusal(path@, new_size, current as int, filesystem, e),
{
    if new_size <= current {
        return Err(
            DomainError::ResizeMustGrow {
                path: String::from_str(path),
                requested: new_size,
                current_size: current,
            },
        );
    }
    let floor = match filesystem {
        Filesystem::Btrfs => MIN_BTRFS_RESIZE_BYTES,
        _ => 0,
    };
    if new_size < floor {
        return Err(DomainError::DeviceTooSmall { path: String::from_str(path), size: new_size });
    }
    Ok(())
}

/// The text of a re-lock failure after a successful grow: an adapter
/// failure's own message, any other error's `Debug` rendering.
pub open spec fn relock_detail(err: DomainError) -> Seq<char> {
    match err {
        DomainError::AdapterFailure(inner) => inner@,
        other => debug_of(other),
    }
}

/// Reports a re-lock failure that followed a successful grow, so it does
/// not read as a failed resize.
pub fn grow_succeeded_close_failed(new_size: u64, err: DomainError) -> (r: DomainError)
    ensures
        r matches DomainError::AdapterFailure(m) && m@ == "volume grown to "@ + decimal(
            new_size as nat,
        ) + " bytes, but failed to re-lock afterward: "@ + relock_detail(err),
{
    let detail = match err {
        DomainError::AdapterFailure(inner) => inner,
        other => other.debug_text(),
    };
    let mut m = String::from_str("volume grown to ");
    push_decimal(&mut m, new_size);
    m.append(" bytes, but failed to re-lock afterward: ");
    m.append(detail.as_str());
    DomainError::AdapterFailure(m)
}

/// `r` is what resizing the mapping and then growing the filesystem
/// returns, for some answers the ports gave.
pub open spec fn resize_then_grow_outcome<L: LuksBackend, S: FilesystemBackend>(
    luks: &L,
    fs: &S,
    mapper: &MapperHandle,
    filesystem: Filesystem,
    r: Result<(), DomainError>,
) -> bool {
    exists|resized: Result<(), DomainError>|
        #[trigger] call_ensures(L::resize, (luks, mapper), resized) && match resized {
            Err(_) => r == resized,
            Ok(_) => call_ensures(S::growfs, (fs, mapper, filesystem), r),
        }
}

/// `r` is what growing the open mapping returns for some answers the ports
/// gave: the payload or filesystem size lookups failing; the second check's
/// refusal against the provisioned size; else, in order, the backing file
/// (file-backed only), the mapping and the filesystem.
pub open spec fn grow_outcome<L: LuksBackend, S: FilesystemBackend>(
    luks: &L,
    fs: &S,
    path: Seq<char>,
    new_size: u64,
    device_backed: bool,
    raw: u64,
    filesystem: Filesystem,
    mapper: &MapperHandle,
    r: Result<(), DomainError>,
) -> bool {
    exists|p: &str, payload: Result<u64, DomainError>|
        #[trigger] call_ensures(S::device_capacity, (fs, p), payload) && p@ == device_node_text(
            mapper.name@,
        ) && match payload {
            Err(e) => r == Err::<(), DomainError>(e),
            Ok(pl) => exists|fs_size: Result<u64, DomainError>|
                #[trigger] call_ensures(S::filesystem_size, (fs, mapper, filesystem), fs_size)
                    && match fs_size {
                    Err(e) => r == Err::<(), DomainError>(e),
                    Ok(f) => if !grow_allowed(new_size, provisioned_size(f, raw, pl), filesystem) {
                        r matches Err(e) && grow_refusal(
                            path,
                            new_size,
                            provisioned_size(f, raw, pl),
                            filesystem,
                            e,
                        )
                    } else if device_backed {
                        resize_then_grow_outcome(luks, fs, mapper, filesystem, r)
                    } else {
                        exists|q: &str, grown: Result<(), DomainError>|
                            #[trigger] call_ensures(S::set_backing_file_size, (fs, q, new_size), grown)
                                && q@ == path && match grown {
                                Err(_) => r == grown,
                                Ok(_) => resize_then_grow_outcome(luks, fs, mapper, filesystem, r),
                            }
                    },
                },
        }
}

/// `r` is what resize returns once the mapping answered `opened`, for some
/// answers the ports gave: the open's failure; the grow's failure; else the
/// re-lock's failure reported as a grow that succeeded, or success.
pub open spec fn resize_after_open<L: LuksBackend, S: FilesystemBackend>(
    luks: &L,
    fs: &S,
    path: Seq<char>,
    new_size: u64,
    device_backed: bool,
    raw: u64,
    filesystem: Filesystem,
    opened: Result<MapperHandle, DomainError>,
    r: Result<(), DomainError>,
) -> bool {
    match opened {
        Err(e) => r == Err::<(), DomainError>(e),
        Ok(mapper) => exists|grown: Result<(), DomainError>, closed: Result<(), DomainError>|
            #![trigger grow_outcome(luks, fs, path, new_size, device_backed, raw, filesystem, &mapper, grown), call_ensures(L::close, (luks, &mapper), closed)]
            grow_outcome(luks, fs, path, new_size, device_backed, raw, filesystem, &mapper, grown)
                && call_ensures(L::close, (luks, &mapper), closed) && match grown {
                Err(_) => r == grown,
                Ok(_) => match closed {
                    Ok(_) => r is Ok,
                    Err(ce) => r matches Err(DomainError::AdapterFailure(m)) && m@ == "volume grown to "@
                        + decimal(new_size as nat) + " bytes, but failed to re-lock afterward: "@
                        + relock_detail(ce),
                },
            },
    }
}

/// `r` is what resize returns once the first check passed on `raw`, for
/// some answers the ports gave: the recorded filesystem's lookup failing;
/// the second preflight for that filesystem failing; else the open and what
/// follows it.
pub open spec fn resize_after_check<L: LuksBackend, F: Fido2Backend, S: FilesystemBackend>(
    luks: &L,
    fido2: &F,
    fs: &S,
    path: &str,
    name: Seq<char>,
    new_size: u64,
    device_backed: bool,
    raw: u64,
    r: Result<(), DomainError>,
) -> bool {
    exists|recorded: Result<Filesystem, DomainError>|
        #[trigger] call_ensures(L::read_filesystem, (luks, path), recorded) && match recorded {
            Err(e) => r == Err::<(), DomainError>(e),
            Ok(filesystem) => exists|pre: Result<(), DomainError>|
                #[trigger] preflight::check_outcome(luks, fido2, fs, Some(filesystem), pre)
                    && match pre {
                    Err(e) => r == Err::<(), DomainError>(e),
                    Ok(_) => exists|nm: &str, opened: Result<MapperHandle, DomainError>|
                        #[trigger] call_ensures(L::open, (luks, path, nm, false), opened) && nm@
                            == name && resize_after_open(
                            luks,
                            fs,
                            path@,
                            new_size,
                            device_backed,
                            raw,
                            filesystem,
                            opened,
                            r,
                        ),
                },
        }
}

/// `r` is what resize returns once the current size `raw` is known: the
/// first check's refusal, else the rest.
pub open spec fn resize_from_raw<L: LuksBackend, F: Fido2Backend, S: FilesystemBackend>(
    luks: &L,
    fido2: &F,
    fs: &S,
    path: &str,
    name: Seq<char>,
    new_size: u64,
    device_backed: bool,
    raw: Result<u64, DomainError>,
    r: Result<(), DomainError>,
) -> bool {
    match raw {
        Err(e) => r == Err::<(), DomainError>(e),
        Ok(current) => if !(if device_backed {
            new_size <= current
        } else {
            new_size >= current
        }) {
            r matches Err(e) && before_open_refusal(path@, new_size, device_backed, current, e)
        } else {
            resize_after_check(luks, fido2, fs, path, name, new_size, device_backed, current, r)
        },
    }
}

/// `r` is what resize returns once the volume is known to be device- or
/// file-backed, for some answers the ports gave: a device's capacity; a
/// backing file that is not a regular file refused, or its length.
pub open spec fn resize_by_kind<L: LuksBackend, F: Fido2Backend, S: FilesystemBackend>(
    luks: &L,
    fido2: &F,
    fs: &S,
    path: &str,
    name: Seq<char>,
    new_size: u64,
    device_backed: bool,
    r: Result<(), DomainError>,
) -> bool {
    if device_backed {
        exists|raw: Result<u64, DomainError>|
            #[trigger] call_ensures(S::device_capacity, (fs, path), raw) && resize_from_raw(
                luks,
                fido2,
                fs,
                path,
                name,
                new_size,
                true,
                raw,
                r,
            )
    } else {
        exists|regular: Result<bool, DomainError>|
            #[trigger] call_ensures(S::is_regular_file, (fs, path), regular) && match regular {
                Err(e) => r == Err::<(), DomainError>(e),
                Ok(false) => r matches Err(DomainError::AdapterFailure(m)) && m@ == path@
                    + " is not a regular file — refusing to grow it"@,
                Ok(true) => exists|raw: Result<u64, DomainError>|
                    #[trigger] call_ensures(S::file_len, (fs, path), raw) && resize_from_raw(
                        luks,
                        fido2,
                        fs,
                        path,
                        name,
                        new_size,
                        false,
                        raw,
                        r,
                    ),
            }
    }
}

/// Everything after the mapping is open: the second grow-only check, then
/// backing file (file-backed only), LUKS2 mapping and filesystem, in that
/// order, announcing each stage.
fn grow_open_mapping<L: LuksBackend, F: Fido2Backend, S: FilesystemBackend, P: Fn(ResizeStage)>(
    path: &str,
    new_size: u64,
    device_backed: bool,
    raw: u64,
    filesystem: Filesystem,
    progress: &P,
    mapper: &MapperHandle,
    ports: &mut Ports<'_, L, F, S>,
) -> (r: Result<(), DomainError>)
    requires
        forall|stage: ResizeStage| #[trigger] progress.requires((stage,)),
    ensures
        final(ports).keeps(*old(ports)),
        extends(old(ports).log(), final(ports).log()),
        r is Ok ==> new_size > 0 && new_size >= resize_floor_of(filesystem),
        grow_outcome(old(ports).luks(), old(ports).fs(), path@, new_size, device_backed, raw, filesystem, mapper, r),
        r is Ok ==> resize_announced(progress, ResizeStage::ResizingLuks2Mapping) && resize_announced(
            progress,
            ResizeStage::GrowingFilesystem,
        ) && (!device_backed ==> resize_announced(progress, ResizeStage::GrowingBackingFile)),
        grow_calls(
            final(ports).log(),
            old(ports).log().len() as int,
            path@,
            new_size,
            device_backed,
            raw,
            filesystem,
            *mapper,
        ),
{
    let node = mapper.device_node();
    let payload = ports.device_capacity(node.as_str())?;
    let fs_size = ports.filesystem_size(mapper, filesystem)?;
    let current = current_provisioned_size(fs_size, raw, payload);
    check_grow_after_open(path, new_size, current, filesystem)?;
    if !device_backed {
        ports.announce_resize(progress, ResizeStage::GrowingBackingFile);
        ports.set_backing_file_size(path, new_size)?;
    }
    ports.announce_resize(progress, ResizeStage::ResizingLuks2Mapping);
    ports.resize(mapper)?;
    ports.announce_resize(progress, ResizeStage::GrowingFilesystem);
    ports.growfs(mapper, filesystem)
}

/// From index `j` of `log` on: the report that the mapping's resize
/// starts, the resize, then (when it went through) the report that the
/// filesystem's growth starts and the growth, and nothing else.
pub open spec fn resize_then_grow_calls(
    log: Seq<PortCall>,
    j: int,
    mapper: MapperHandle,
    filesystem: Filesystem,
) -> bool {
    &&& 0 <= j && j + 1 < log.len()
    &&& log[j] == PortCall::ResizeStageStarted(ResizeStage::ResizingLuks2Mapping)
    &&& log[j + 1] matches PortCall::Resize(m, resized)
    &&& m == mapper
    &&& if resized is Ok {
        log.len() == j + 4 && log[j + 2] == PortCall::ResizeStageStarted(ResizeStage::GrowingFilesystem)
            && (log[j + 3] matches PortCall::Growfs(m2, f, _) && m2 == mapper && f == filesystem)
    } else {
        log.len() == j + 2
    }
}

/// From index `g` of `log` on, the calls growing the open `mapper` makes:
/// the mapping's payload and the filesystem's size are looked up; a failed
/// lookup or a refused grow ends the calls there; otherwise the backing
/// file (file-backed only), the mapping and the filesystem are grown, in
/// that order, each right after the report that its stage starts, a
/// failure ending the calls.
pub open spec fn grow_calls(
    log: Seq<PortCall>,
    g: int,
    path: Seq<char>,
    new_size: u64,
    device_backed: bool,
    raw: u64,
    filesystem: Filesystem,
    mapper: MapperHandle,
) -> bool {
    &&& 0 <= g < log.len()
    &&& log[g] matches PortCall::DeviceCapacity(node, payload)
    &&& node == device_node_text(mapper.name@)
    &&& match payload {
        Err(_) => log.len() == g + 1,
        Ok(pl) => g + 1 < log.len() && (log[g + 1] matches PortCall::FilesystemSize(m2, f2, fs_size)
            && m2 == mapper && f2 == filesystem && match fs_size {
            Err(_) => log.len() == g + 2,
            Ok(f) => if !grow_allowed(new_size, provisioned_size(f, raw, pl), filesystem) {
                log.len() == g + 2
            } else if device_backed {
                resize_then_grow_calls(log, g + 2, mapper, filesystem)
            } else {
                g + 3 < log.len() && log[g + 2] == PortCall::ResizeStageStarted(
                    ResizeStage::GrowingBackingFile,
                ) && (log[g + 3] matches PortCall::SetBackingFileSize(p, s, grown) && p == path && s
                    == new_size && if grown is Ok {
                    resize_then_grow_calls(log, g + 4, mapper, filesystem)
                } else {
                    log.len() == g + 4
                })
            },
        }),
    }
}

/// From index `j` of `log` on, resize's calls once the current size
/// `current` is known: none at all when the first check refuses; else the
/// recorded filesystem, the second preflight for it, the open, and the
/// growth of the open mapping followed by its close, the one close.
pub open spec fn calls_after_first_check(
    log: Seq<PortCall>,
    j: int,
    path: Seq<char>,
    new_size: u64,
    device_backed: bool,
    current: u64,
) -> bool {
    if !(if device_backed {
        new_size <= current
    } else {
        new_size >= current
    }) {
        log.len() == j
    } else {
        &&& 0 <= j < log.len()
        &&& log[j] matches PortCall::ReadFilesystem(p, recorded)
        &&& p == path
        &&& match recorded {
            Err(_) => log.len() == j + 1,
            Ok(filesystem) => j + 4 <= log.len() && (!preflight::passed_at(log, j + 1) ==> log.len()
                == j + 4) && (preflight::passed_at(log, j + 1) ==> j + 4 < log.len() && (log[j
                + 4] matches PortCall::Open(q, _, read_only, opened) && q == path && !read_only
                && match opened {
                Err(_) => log.len() == j + 5,
                Ok(mapper) => (log.last() matches PortCall::Close(m, _) && m == mapper) && grow_calls(
                    log.drop_last(),
                    j + 5,
                    path,
                    new_size,
                    device_backed,
                    current,
                    filesystem,
                    mapper,
                ),
            })),
        }
    }
}

/// From index `k` of `log` on, the calls resize makes after its preflight
/// passed: the lock, the mapping name, the target's kind, then its current
/// size (the device's capacity; or, for a file, whether it is a regular
/// file and then its length), each failure or refusal ending the calls;
/// nothing is opened before the first check lets the grow proceed.
pub open spec fn resize_calls(log: Seq<PortCall>, k: int, path: Seq<char>, new_size: u64) -> bool {
    &&& 0 <= k < log.len()
    &&& log[k] matches PortCall::LockTarget(p, locked)
    &&& p == path
    &&& if !locked {
        log.len() == k + 1
    } else {
        k + 1 < log.len() && (log[k + 1] matches PortCall::Canonicalize(q, canonical) && q == path
            && match canonical {
            Err(_) => log.len() == k + 2,
            Ok(_) => k + 2 < log.len() && (log[k + 2] matches PortCall::IsBlockDevice(q2, kind) && q2
                == path && match kind {
                Err(_) => log.len() == k + 3,
                Ok(true) => k + 3 < log.len() && (log[k + 3] matches PortCall::DeviceCapacity(q3, cap)
                    && q3 == path && match cap {
                    Err(_) => log.len() == k + 4,
                    Ok(c) => calls_after_first_check(log, k + 4, path, new_size, true, c),
                }),
                Ok(false) => k + 3 < log.len() && (log[k + 3] matches PortCall::IsRegularFile(q3, reg)
                    && q3 == path && match reg {
                    Ok(true) => k + 4 < log.len() && (log[k + 4] matches PortCall::FileLen(q4, len)
                        && q4 == path && match len {
                        Err(_) => log.len() == k + 5,
                        Ok(l) => calls_after_first_check(log, k + 5, path, new_size, false, l),
                    }),
                    _ => log.len() == k + 4,
                }),
            }),
        })
    }
}

/// Grows the volume at `path` to `new_size` bytes. Obvious refusals (past a
/// device's capacity, a backing file that is not a regular file or is
/// longer than `new_size`) come before the volume is opened; once open, a size not above its provisioned size, or
/// under the filesystem's resize floor, is refused before anything is
/// changed. The mapping is closed on every path once opened; a close
/// failure after a successful grow says the grow succeeded.
pub fn run<L: LuksBackend, F: Fido2Backend, S: FilesystemBackend, P: Fn(ResizeStage)>(
    path: &str,
    new_size: u64,
    progress: &P,
    ports: &mut Ports<'_, L, F, S>,
) -> (r: Result<(), DomainError>)
    requires
        forall|stage: ResizeStage| #[trigger] progress.requires((stage,)),
    ensures
        final(ports).keeps(*old(ports)),
        extends(old(ports).log(), final(ports).log()),
        preflight::opens_with_preflight(old(ports).log(), final(ports).log(), None),
        r is Ok ==> new_size > 0,
        r is Ok ==> resize_announced(progress, ResizeStage::ResizingLuks2Mapping) && resize_announced(
            progress,
            ResizeStage::GrowingFilesystem,
        ),
        preflight::passed_at(final(ports).log(), old(ports).log().len() as int) ==> resize_calls(
            final(ports).log(),
            old(ports).log().len() + 3int,
            path@,
            new_size,
        ),
        exists|pre: Result<(), DomainError>|
            #[trigger] preflight::check_outcome(old(ports).luks(), old(ports).fido2(), old(ports).fs(), None, pre) && match pre {
                Err(e) => r == Err::<(), DomainError>(e),
                Ok(_) => exists|lock: Result<S::LockGuard, DomainError>|
                    #[trigger] call_ensures(S::lock_target, (old(ports).fs(), path), lock) && match lock {
                        Err(e) => r == Err::<(), DomainError>(e),
                        Ok(_) => exists|name: Result<String, DomainError>|
                            #[trigger] mapping_name_outcome(old(ports).fs(), path, name) && match name {
                                Err(e) => r == Err::<(), DomainError>(e),
                                Ok(n) => exists|kind: Result<bool, DomainError>|
                                    #[trigger] call_ensures(S::is_block_device, (old(ports).fs(), path), kind)
                                        && match kind {
                                        Err(e) => r == Err::<(), DomainError>(e),
                                        Ok(device_backed) => resize_by_kind(
                                            old(ports).luks(),
                                            old(ports).fido2(),
                                            old(ports).fs(),
                                            path,
                                            n@,
                                            new_size,
                                            device_backed,
                                            r,
                                        ),
                                    },
                            },
                    },
            },
{
    preflight::check(ports, None)?;
    let _lock = ports.lock_target(path)?;
    let name = mapping_name(ports, path)?;
    let device_backed = ports.is_block_device(path)?;
    let raw = if device_backed {
        ports.device_capacity(path)?
    } else {
        let regular = ports.is_regular_file(path)?;
        check_regular_backing_file(path, regular)?;
        ports.file_len(path)?
    };
    check_grow_before_open(path, new_size, device_backed, raw)?;
    let filesystem = ports.read_filesystem(path)?;
    preflight::check(ports, Some(filesystem))?;
    let mapper = ports.open(path, name.as_str(), false)?;
    let grown = grow_open_mapping(
        path,
        new_size,
        device_backed,
        raw,
        filesystem,
        progress,
        &mapper,
        ports,
    );
    let closed = ports.close(&mapper);
    match grown {
        Ok(()) => match closed {
            Ok(()) => Ok(()),
            Err(err) => Err(grow_succeeded_close_failed(new_size, err)),
        },
        Err(err) => Err(err),
    }
}

/// Whether the check on the open volume lets a grow to `new_size` proceed
/// from a provisioned size of `current`.
pub open spec fn grow_allowed(new_size: u64, current: int, filesystem: Filesystem) -> bool {
    new_size > current && new_size >= resize_floor_of(filesystem)
}

/// Btrfs cannot be grown to less than 256 MiB; ext4 and xfs have no floor
/// of their own beyond the grow-only rule.
pub proof fn law_resize_floors()
    ensures
        resize_floor_of(Filesystem::Btrfs) == 256 * 1024 * 1024,
        resize_floor_of(Filesystem::Ext4) == 0,
        resize_floor_of(Filesystem::Xfs) == 0,
{
}

/// Resize is grow-only: whenever the check on the open volume lets a resize
/// proceed, the new size is strictly larger than both the filesystem's
/// current size and the volume's provisioned size (filesystem plus LUKS2
/// header), and reaches the filesystem's resize floor.
pub proof fn law_resize_only_grows(
    new_size: u64,
    fs_size: u64,
    raw: u64,
    payload: u64,
    filesystem: Filesystem,
)
    requires
        grow_allowed(new_size, provisioned_size(fs_size, raw, payload), filesystem),
    ensures
        new_size > fs_size,
        new_size > provisioned_size(fs_size, raw, payload),
        filesystem == Filesystem::Btrfs ==> new_size >= MIN_BTRFS_RESIZE_BYTES,
{
}

/// The LUKS2 header counts toward a volume's size: when the filesystem
/// fills the mapping's whole payload, the provisioned size is the raw size,
/// so asking for the raw size again is never a grow.
pub proof fn law_header_counts_toward_size(raw: u64, payload: u64)
    requires
        payload <= raw,
    ensures
        provisioned_size(payload, raw, payload) == raw,
        !(raw > provisioned_size(payload, raw, payload)),
{
}

} // verus!
