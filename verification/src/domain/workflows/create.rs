//! `create`: formats a new volume — LUKS2 header, first FIDO2 key,
//! filesystem — on a backing file it allocates or on a confirmed device.
use vstd::prelude::*;

use crate::domain::errors::{outcome_with_cleanup, with_cleanup, DomainError};
use crate::domain::keyslot_guard::{
    guarded_removal_calls, guarded_removal_outcome, remove_keyslot_guarded,
};
use crate::domain::mapping_name::{mapping_name, mapping_name_outcome, mapping_name_text};
use crate::domain::preflight;
use crate::domain::progress::{announced, CreateStage};
use crate::domain::types::{CreateTarget, Filesystem, KeyMetadata, KeyslotRef, MapperHandle};
use crate::ports::fido2_backend::{Fido2Backend, Fido2DeviceSelection};
use crate::ports::filesystem_backend::FilesystemBackend;
use crate::ports::journal::{extends, PortCall, Ports};
use crate::ports::luks_backend::LuksBackend;

verus! {

/// The smallest volume that leaves room for a LUKS2 header (16 MiB) and a
/// usable filesystem payload behind it.
pub const MIN_VOLUME_SIZE_BYTES: u64 = 32 * 1024 * 1024;

/// `mkfs.xfs` refuses filesystems under 300 MB; this leaves a margin above
/// that behind the LUKS2 header.
pub const MIN_XFS_VOLUME_SIZE_BYTES: u64 = 350 * 1024 * 1024;

/// The smallest total size `fs` can be formatted at.
pub open spec fn floor_of(fs: Filesystem) -> u64 {
    match fs {
        Filesystem::Xfs => MIN_XFS_VOLUME_SIZE_BYTES,
        Filesystem::Ext4 | Filesystem::Btrfs => MIN_VOLUME_SIZE_BYTES,
    }
}

/// The smallest total (pre-header) size `filesystem` can be formatted at.
pub fn size_floor_for(filesystem: Filesystem) -> (r: u64)
    ensures
        r == floor_of(filesystem),
{
    match filesystem {
        Filesystem::Xfs => MIN_XFS_VOLUME_SIZE_BYTES,
        Filesystem::Ext4 | Filesystem::Btrfs => MIN_VOLUME_SIZE_BYTES,
    }
}

/// The refusal `e` of a file target: an existing destination without the
/// marker first, then a size below the filesystem's floor.
pub open spec fn file_target_refusal(
    path: Seq<char>,
    size: u64,
    filesystem: Filesystem,
    exists_unmarked: bool,
    e: DomainError,
) -> bool {
    if exists_unmarked {
        e matches DomainError::DestinationExists(p) && p@ == path
    } else {
        e matches DomainError::DeviceTooSmall { path: p, size: s } && p@ == path && s == size
    }
}

/// The file-target refusals: an existing destination without the
/// interrupted-create marker (`exists_unmarked`) is refused first, then a
/// size below the filesystem's floor.
pub fn check_file_target(path: &str, size: u64, filesystem: Filesystem, exists_unmarked: bool) -> (r:
    Result<(), DomainError>)
    ensures
        r is Ok <==> !exists_unmarked && size >= floor_of(filesystem),
        exists_unmarked ==> (r matches Err(DomainError::DestinationExists(p)) && p@ == path@),
        !exists_unmarked && size < floor_of(filesystem) ==> (r matches Err(
            DomainError::DeviceTooSmall { path: p, size: s },
        ) && p@ == path@ && s == size),
        r matches Err(e) ==> file_target_refusal(path@, size, filesystem, exists_unmarked, e),
{
    if exists_unmarked {
        return Err(DomainError::DestinationExists(String::from_str(path)));
    }
    if size < size_floor_for(filesystem) {
        return Err(DomainError::DeviceTooSmall { path: String::from_str(path), size });
    }
    Ok(())
}

/// Whether a device target is accepted: a marked header (a resume), or no
/// header and a confirmed wipe.
pub open spec fn device_target_accepted(has_header: bool, has_marker: bool, confirmed: bool) -> bool {
    (has_header && has_marker) || (!has_header && confirmed)
}

/// The refusal `e` of a device target.
pub open spec fn device_target_refusal(path: Seq<char>, has_header: bool, e: DomainError) -> bool {
    if has_header {
        e matches DomainError::DeviceAlreadyFormatted(p) && p@ == path
    } else {
        e matches DomainError::DeviceConfirmationRequired
    }
}

/// The device-target refusals, in their load-bearing order: a LUKS2 header
/// without the marker is refused even when the wipe was confirmed; a header
/// with the marker is a resume and needs no confirmation; anything else
/// needs the confirmation. `Ok` carries whether this is a resume.
pub fn check_device_target(path: &str, has_header: bool, has_marker: bool, confirmed: bool) -> (r:
    Result<bool, DomainError>)
    ensures
        has_header && !has_marker ==> (r matches Err(DomainError::DeviceAlreadyFormatted(p))
            && p@ == path@),
        has_header && has_marker ==> r == Ok::<bool, DomainError>(true),
        !has_header && !confirmed ==> r matches Err(DomainError::DeviceConfirmationRequired),
        !has_header && confirmed ==> r == Ok::<bool, DomainError>(false),
        r is Ok ==> confirmed || (has_header && has_marker),
        r is Ok <==> device_target_accepted(has_header, has_marker, confirmed),
        r matches Err(e) ==> device_target_refusal(path@, has_header, e),
{
    if has_header {
        if has_marker {
            Ok(true)
        } else {
            Err(DomainError::DeviceAlreadyFormatted(String::from_str(path)))
        }
    } else if !confirmed {
        Err(DomainError::DeviceConfirmationRequired)
    } else {
        Ok(false)
    }
}

/// The size a device-backed volume is formatted at: the requested size, or
/// the device's whole capacity when none was given.
pub open spec fn resolved_device_size(requested: Option<u64>, capacity: u64) -> u64 {
    match requested {
        Some(n) => n,
        None => capacity,
    }
}

/// The refusal `e` of a device size.
pub open spec fn device_size_refusal(
    path: Seq<char>,
    requested: Option<u64>,
    capacity: u64,
    e: DomainError,
) -> bool {
    if requested matches Some(n) && n > capacity {
        e matches DomainError::DeviceSizeExceedsCapacity { path: p, requested: q, capacity: c }
            && p@ == path && requested == Some(q) && c == capacity
    } else {
        e matches DomainError::DeviceTooSmall { path: p, size: s } && p@ == path && s
            == resolved_device_size(requested, capacity)
    }
}

/// Resolves and validates a device-backed size: a request above the
/// capacity is refused, then a resolved size below the filesystem's floor.
pub fn resolve_device_size(
    path: &str,
    requested: Option<u64>,
    capacity: u64,
    filesystem: Filesystem,
) -> (r: Result<u64, DomainError>)
    ensures
        (requested matches Some(n) && n > capacity) ==> (r matches Err(
            DomainError::DeviceSizeExceedsCapacity { path: p, requested: q, capacity: c },
        ) && p@ == path@ && requested == Some(q) && c == capacity),
        !(requested matches Some(n) && n > capacity) && resolved_device_size(requested, capacity)
            < floor_of(filesystem) ==> (r matches Err(DomainError::DeviceTooSmall { path: p, size: s })
            && p@ == path@ && s == resolved_device_size(requested, capacity)),
        r is Ok <==> !(requested matches Some(n) && n > capacity) && resolved_device_size(
            requested,
            capacity,
        ) >= floor_of(filesystem),
        r is Ok ==> r->Ok_0 == resolved_device_size(requested, capacity),
        r matches Err(e) ==> device_size_refusal(path@, requested, capacity, e),
{
    let resolved = match requested {
        Some(n) => {
            if n > capacity {
                return Err(
                    DomainError::DeviceSizeExceedsCapacity {
                        path: String::from_str(path),
                        requested: n,
                        capacity,
                    },
                );
            }
            n
        },
        None => capacity,
    };
    if resolved < size_floor_for(filesystem) {
        return Err(DomainError::DeviceTooSmall { path: String::from_str(path), size: resolved });
    }
    Ok(resolved)
}

/// The label a new key gets: the caller's, or `primary`.
pub open spec fn label_or_primary(label: Option<Seq<char>>) -> Seq<char> {
    match label {
        Some(l) => l,
        None => "primary"@,
    }
}

/// The first key keeps the label it was given, and is labelled `primary`
/// when none was given.
pub proof fn law_first_key_label(label: Seq<char>)
    ensures
        label_or_primary(Some(label)) == label,
        label_or_primary(None) == "primary"@,
{
}

pub fn key_label_or_default(label: Option<String>) -> (r: String)
    ensures
        r@ == label_or_primary(
            match label {
                Some(l) => Some(l@),
                None => None,
            },
        ),
{
    match label {
        Some(l) => l,
        None => String::from_str("primary"),
    }
}

/// `r` is what finishing provisioning returns after the marker and the
/// bootstrap keyslot, for some answers the LUKS port gave: the marker's
/// removal failure, else the guarded removal of keyslot 0.
pub open spec fn drop_bootstrap_outcome<L: LuksBackend>(
    luks: &L,
    mapper: &MapperHandle,
    r: Result<(), DomainError>,
) -> bool {
    exists|p: &str, removed: Result<(), DomainError>|
        #[trigger] call_ensures(L::remove_marker_token, (luks, p), removed) && p@
            == mapper.source_path@ && match removed {
            Err(_) => r == removed,
            Ok(_) => exists|q: &str|
                #[trigger] guarded_removal_outcome(luks, q, KeyslotRef(0), r) && q@
                    == mapper.source_path@,
        }
}

/// `r` is what scaffolding the hook templates and then dropping the
/// bootstrap credentials returns: a mount failure; a scaffolding or
/// unmount failure, combined; else what dropping the bootstrap returns.
pub open spec fn scaffold_outcome<L: LuksBackend, S: FilesystemBackend>(
    luks: &L,
    fs: &S,
    mapper: &MapperHandle,
    r: Result<(), DomainError>,
) -> bool {
    exists|mounted: Result<String, DomainError>|
        #[trigger] call_ensures(S::mount, (fs, mapper, false), mounted) && match mounted {
            Err(e) => r == Err::<(), DomainError>(e),
            Ok(mountpoint) => exists|
                p: &str,
                written: Result<(), DomainError>,
                unmounted: Result<(), DomainError>,
                combined: Result<(), DomainError>,
            |
                #![trigger call_ensures(S::scaffold_hook_templates, (fs, p), written), call_ensures(S::umount, (fs, mapper), unmounted), with_cleanup(written, unmounted, "unmount the filesystem", combined)]
                call_ensures(S::scaffold_hook_templates, (fs, p), written) && p@ == mountpoint@
                    && call_ensures(S::umount, (fs, mapper), unmounted) && with_cleanup(
                    written,
                    unmounted,
                    "unmount the filesystem",
                    combined,
                ) && if combined is Err {
                    r == combined
                } else {
                    drop_bootstrap_outcome(luks, mapper, r)
                },
        }
}

/// `r` is what provisioning an open mapping returns for some answers the
/// ports gave: the first key's enrollment (with the given or default label,
/// the filesystem, the selection and both verification choices), then
/// `mkfs`, then the optional scaffolding, then dropping the bootstrap
/// credentials, stopping at the first failure.
pub open spec fn provision_outcome<L: LuksBackend, F: Fido2Backend, S: FilesystemBackend>(
    luks: &L,
    fido2: &F,
    fs: &S,
    mapper: &MapperHandle,
    filesystem: Filesystem,
    user_verification: bool,
    client_pin: Option<bool>,
    key_label: Option<String>,
    scaffold_hooks: bool,
    fido2_selection: Fido2DeviceSelection,
    r: Result<(), DomainError>,
) -> bool {
    exists|metadata: KeyMetadata, enrolled: Result<(), DomainError>|
        #[trigger] call_ensures(
            F::enroll_fido2_key,
            (fido2, mapper, metadata, fido2_selection, user_verification, client_pin),
            enrolled,
        ) && metadata.key_label@ == label_or_primary(
            match key_label {
                Some(l) => Some(l@),
                None => None,
            },
        ) && metadata.filesystem == filesystem && match enrolled {
            Err(_) => r == enrolled,
            Ok(_) => exists|formatted: Result<(), DomainError>|
                #[trigger] call_ensures(S::mkfs, (fs, mapper, filesystem), formatted)
                    && match formatted {
                    Err(_) => r == formatted,
                    Ok(_) => if scaffold_hooks {
                        scaffold_outcome(luks, fs, mapper, r)
                    } else {
                        drop_bootstrap_outcome(luks, mapper, r)
                    },
                },
        }
}

/// `r` is what formatting and provisioning the volume at `path` returns for
/// some answers the ports gave: the mapping name's failure; clearing a
/// stale mapping of that name failing; the format-and-open failing;
/// otherwise provisioning, with the re-lock's outcome combined with it.
pub open spec fn bootstrap_outcome<L: LuksBackend, F: Fido2Backend, S: FilesystemBackend>(
    luks: &L,
    fido2: &F,
    fs: &S,
    path: &str,
    size: u64,
    filesystem: Filesystem,
    user_verification: bool,
    client_pin: Option<bool>,
    key_label: Option<String>,
    scaffold_hooks: bool,
    fido2_selection: Fido2DeviceSelection,
    r: Result<(), DomainError>,
) -> bool {
    exists|name: Result<String, DomainError>|
        #[trigger] mapping_name_outcome(fs, path, name) && match name {
            Err(e) => r == Err::<(), DomainError>(e),
            Ok(n) => exists|nm: &str, cleared: Result<(), DomainError>|
                #[trigger] call_ensures(L::close_stale_mapping, (luks, nm), cleared) && nm@ == n@
                    && match cleared {
                    Err(_) => r == cleared,
                    Ok(_) => exists|nm2: &str, opened: Result<MapperHandle, DomainError>|
                        #[trigger] call_ensures(
                            L::bootstrap_format_and_open,
                            (luks, path, nm2, size, filesystem),
                            opened,
                        ) && nm2@ == n@ && match opened {
                            Err(e) => r == Err::<(), DomainError>(e),
                            Ok(mapper) => exists|
                                provisioned: Result<(), DomainError>,
                                closed: Result<(), DomainError>,
                            |
                                #![trigger provision_outcome(luks, fido2, fs, &mapper, filesystem, user_verification, client_pin, key_label, scaffold_hooks, fido2_selection, provisioned), call_ensures(L::close, (luks, &mapper), closed)]
                                provision_outcome(
                                    luks,
                                    fido2,
                                    fs,
                                    &mapper,
                                    filesystem,
                                    user_verification,
                                    client_pin,
                                    key_label,
                                    scaffold_hooks,
                                    fido2_selection,
                                    provisioned,
                                ) && call_ensures(L::close, (luks, &mapper), closed) && with_cleanup(
                                    provisioned,
                                    closed,
                                    "re-lock the LUKS2 mapping",
                                    r,
                                ),
                        },
                },
        }
}

/// From index `k` of `log` to its end, the calls formatting and
/// provisioning `path` at `size` make: the mapping name's
/// canonicalization; clearing a stale mapping of that name; the report
/// that formatting starts, then formatting and opening `path`; then, once
/// it is open, the provisioning (`finish_calls`: the report that enrollment
/// starts and the first key's enrollment first, after which a failed
/// enrollment leaves nothing but closing the mapping); the mapping is
/// closed last whenever it was opened. A failure before the open ends the
/// calls.
pub open spec fn provisioning_calls(
    log: Seq<PortCall>,
    k: int,
    path: Seq<char>,
    size: u64,
    filesystem: Filesystem,
    scaffold_hooks: bool,
) -> bool {
    &&& 0 <= k < log.len()
    &&& log[k] matches PortCall::Canonicalize(p, canonical)
    &&& p == path
    &&& match canonical {
        Err(_) => log.len() == k + 1,
        Ok(c) => k + 2 <= log.len() && (log[k + 1] matches PortCall::CloseStaleMapping(name, cleared)
            && name == mapping_name_text(c@) && match cleared {
            Err(_) => log.len() == k + 2,
            Ok(_) => k + 4 <= log.len() && log[k + 2] == PortCall::CreateStageStarted(
                CreateStage::FormattingLuks2,
            ) && (log[k + 3] matches PortCall::BootstrapFormatAndOpen(q, name2, s, f, opened) && q
                == path && name2 == name && s == size && f == filesystem && match opened {
                Err(_) => log.len() == k + 4,
                Ok(mapper) => k + 7 <= log.len() && log[k + 4] == PortCall::CreateStageStarted(
                    CreateStage::EnrollingFido2Key,
                ) && (log[k + 5] matches PortCall::EnrollFido2Key(m, _, _, _, _, enrolled) && m
                    == mapper && (enrolled is Err ==> log.len() == k + 7)) && (log.last() matches PortCall::Close(
                    m2,
                    _,
                ) && m2 == mapper) && exists|provisioned: Result<(), DomainError>|
                    #[trigger] finish_calls(
                        log.drop_last(),
                        k + 4,
                        mapper,
                        filesystem,
                        scaffold_hooks,
                        provisioned,
                    ),
            }),
        }),
    }
}

/// From index `j` of `log` on, a file target's calls once its existence
/// check is settled: none at all when it is refused (an existing unmarked
/// destination, a size below the floor); otherwise the report that the
/// allocation starts, the allocation, then (when it went through) the
/// provisioning, followed by removing the backing file again when the
/// result `r` is an error.
pub open spec fn file_calls_after_checks(
    log: Seq<PortCall>,
    j: int,
    path: Seq<char>,
    size: u64,
    filesystem: Filesystem,
    scaffold_hooks: bool,
    exists_unmarked: bool,
    r: Result<(), DomainError>,
) -> bool {
    if exists_unmarked || size < floor_of(filesystem) {
        log.len() == j
    } else {
        &&& 0 <= j && j + 1 < log.len()
        &&& log[j] == PortCall::CreateStageStarted(CreateStage::AllocatingBackingFile)
        &&& log[j + 1] matches PortCall::SetBackingFileSize(p, s, allocated)
        &&& p == path && s == size
        &&& match allocated {
            Err(_) => log.len() == j + 2,
            Ok(_) => if r is Err {
                (log.last() matches PortCall::RemoveBackingFile(q, _) && q == path) && provisioning_calls(
                    log.drop_last(),
                    j + 2,
                    path,
                    size,
                    filesystem,
                    scaffold_hooks,
                )
            } else {
                provisioning_calls(log, j + 2, path, size, filesystem, scaffold_hooks)
            },
        }
    }
}

/// From index `j` of `log` on, a device target's calls once its header and
/// marker are known: none at all when the target is refused; otherwise the
/// capacity lookup, then nothing more when the size is refused, else the
/// provisioning at the resolved size.
pub open spec fn device_calls_after_checks(
    log: Seq<PortCall>,
    j: int,
    path: Seq<char>,
    requested: Option<u64>,
    has_header: bool,
    has_marker: bool,
    confirmed: bool,
    filesystem: Filesystem,
    scaffold_hooks: bool,
) -> bool {
    if !device_target_accepted(has_header, has_marker, confirmed) {
        log.len() == j
    } else {
        &&& 0 <= j < log.len()
        &&& log[j] matches PortCall::DeviceCapacity(p, capacity)
        &&& p == path
        &&& match capacity {
            Err(_) => log.len() == j + 1,
            Ok(c) => if (requested matches Some(n) && n > c) || resolved_device_size(requested, c)
                < floor_of(filesystem) {
                log.len() == j + 1
            } else {
                provisioning_calls(log, j + 1, path, resolved_device_size(requested, c), filesystem, scaffold_hooks)
            },
        }
    }
}

/// From index `k` of `log` on, the calls `create` makes after its preflight
/// check passed: the target's lock, then its read-only checks (existence
/// and marker for a file; header, then marker when there is a header, for a
/// device), in that order; nothing else is asked before those checks
/// accept the target, and a refusal ends the calls right there.
pub open spec fn create_calls(
    log: Seq<PortCall>,
    k: int,
    target: CreateTarget,
    filesystem: Filesystem,
    scaffold_hooks: bool,
    r: Result<(), DomainError>,
) -> bool {
    &&& 0 <= k < log.len()
    &&& match target {
        CreateTarget::File { path, size } => (log[k] matches PortCall::LockTarget(p, locked)
            && p == path@ && if !locked {
            log.len() == k + 1
        } else {
            k + 1 < log.len() && (log[k + 1] matches PortCall::PathExists(q, present) && q == path@
                && if present {
                k + 2 < log.len() && (log[k + 2] matches PortCall::HasMarkerToken(q2, marked) && q2
                    == path@ && match marked {
                    Err(_) => log.len() == k + 3,
                    Ok(m) => file_calls_after_checks(log, k + 3, path@, size, filesystem, scaffold_hooks, !m, r),
                })
            } else {
                file_calls_after_checks(log, k + 2, path@, size, filesystem, scaffold_hooks, false, r)
            })
        }),
        CreateTarget::Device { path, size, confirmed } => (log[k] matches PortCall::LockTarget(
            p,
            locked,
        ) && p == path@ && if !locked {
            log.len() == k + 1
        } else {
            k + 1 < log.len() && (log[k + 1] matches PortCall::HasLuks2Header(q, header) && q == path@
                && match header {
                Err(_) => log.len() == k + 2,
                Ok(h) => if h {
                    k + 2 < log.len() && (log[k + 2] matches PortCall::HasMarkerToken(q2, marked) && q2
                        == path@ && match marked {
                        Err(_) => log.len() == k + 3,
                        Ok(m) => device_calls_after_checks(
                            log,
                            k + 3,
                            path@,
                            size,
                            true,
                            m,
                            confirmed,
                            filesystem,
                            scaffold_hooks,
                        ),
                    })
                } else {
                    device_calls_after_checks(
                        log,
                        k + 2,
                        path@,
                        size,
                        false,
                        false,
                        confirmed,
                        filesystem,
                        scaffold_hooks,
                    )
                },
            })
        }),
    }
}

/// From index `j` of `log` on, the calls dropping the bootstrap
/// credentials of the volume at `source` make: the marker's removal, then
/// (when it went through) the guarded removal of the bootstrap keyslot 0.
pub open spec fn drop_bootstrap_calls(
    log: Seq<PortCall>,
    j: int,
    source: Seq<char>,
    r: Result<(), DomainError>,
) -> bool {
    &&& 0 <= j < log.len()
    &&& log[j] matches PortCall::RemoveMarkerToken(p, removed)
    &&& p == source
    &&& match removed {
        Err(_) => log.len() == j + 1,
        Ok(_) => guarded_removal_calls(log.subrange(j + 1, log.len() as int), source, KeyslotRef(0), r),
    }
}

/// From index `k` of `log` on, the calls provisioning the open `mapper`
/// make, in this order: the first key's enrollment; the filesystem; with
/// `scaffold_hooks`, mounting, writing the hook templates and unmounting;
/// then dropping the marker and, last, the bootstrap keyslot. The first
/// three stages each come right after the report that the stage starts.
/// A failure ends the calls (the unmount still follows a failed template
/// write).
#[verifier::opaque]
pub open spec fn finish_calls(
    log: Seq<PortCall>,
    k: int,
    mapper: MapperHandle,
    filesystem: Filesystem,
    scaffold_hooks: bool,
    r: Result<(), DomainError>,
) -> bool {
    &&& 0 <= k && k + 1 < log.len()
    &&& log[k] == PortCall::CreateStageStarted(CreateStage::EnrollingFido2Key)
    &&& log[k + 1] matches PortCall::EnrollFido2Key(m, _, _, _, _, enrolled)
    &&& m == mapper
    &&& match enrolled {
        Err(_) => log.len() == k + 2,
        Ok(_) => k + 3 < log.len() && log[k + 2] == PortCall::CreateStageStarted(
            CreateStage::CreatingFilesystem,
        ) && (log[k + 3] matches PortCall::Mkfs(m2, f, formatted) && m2 == mapper && f == filesystem
            && match formatted {
            Err(_) => log.len() == k + 4,
            Ok(_) => if !scaffold_hooks {
                drop_bootstrap_calls(log, k + 4, mapper.source_path@, r)
            } else {
                k + 5 < log.len() && log[k + 4] == PortCall::CreateStageStarted(
                    CreateStage::ScaffoldingHookTemplates,
                ) && (log[k + 5] matches PortCall::Mount(m3, read_only, mounted) && m3 == mapper
                    && !read_only && match mounted {
                    Err(_) => log.len() == k + 6,
                    Ok(mountpoint) => k + 7 < log.len() && (log[k + 6] matches PortCall::ScaffoldHookTemplates(
                        mp,
                        written,
                    ) && mp == mountpoint@ && (log[k + 7] matches PortCall::Umount(m4, unmounted) && m4
                        == mapper && if written is Ok && unmounted is Ok {
                        drop_bootstrap_calls(log, k + 8, mapper.source_path@, r)
                    } else {
                        log.len() == k + 8
                    })),
                })
            },
        }),
    }
}

/// Enrolls the first key, formats the filesystem, optionally scaffolds the
/// hook templates, then drops the marker and the bootstrap keyslot — in
/// that order, so a crash in between never leaves a completed volume that
/// looks resumable.
fn finish_provisioning<L: LuksBackend, F: Fido2Backend, S: FilesystemBackend, P: Fn(CreateStage)>(
    mapper: &MapperHandle,
    filesystem: Filesystem,
    user_verification: bool,
    client_pin: Option<bool>,
    key_label: Option<String>,
    scaffold_hooks: bool,
    fido2_selection: Fido2DeviceSelection,
    progress: &P,
    ports: &mut Ports<'_, L, F, S>,
) -> (r: Result<(), DomainError>)
    requires
        forall|stage: CreateStage| #[trigger] progress.requires((stage,)),
    ensures
        final(ports).keeps(*old(ports)),
        extends(old(ports).log(), final(ports).log()),
        provision_outcome(
            old(ports).luks(),
            old(ports).fido2(),
            old(ports).fs(),
            mapper,
            filesystem,
            user_verification,
            client_pin,
            key_label,
            scaffold_hooks,
            fido2_selection,
            r,
        ),
        r is Ok ==> announced(progress, CreateStage::EnrollingFido2Key) && announced(
            progress,
            CreateStage::CreatingFilesystem,
        ) && (scaffold_hooks ==> announced(progress, CreateStage::ScaffoldingHookTemplates)),
        old(ports).log().len() + 1 < final(ports).log().len(),
        final(ports).log()[old(ports).log().len() as int] == PortCall::CreateStageStarted(
            CreateStage::EnrollingFido2Key,
        ),
        final(ports).log()[old(ports).log().len() + 1int] matches PortCall::EnrollFido2Key(
            m,
            _,
            _,
            _,
            _,
            enrolled,
        ) && m == *mapper && (enrolled is Err ==> final(ports).log().len() == old(ports).log().len() + 2),
        finish_calls(
            final(ports).log(),
            old(ports).log().len() as int,
            *mapper,
            filesystem,
            scaffold_hooks,
            r,
        ),
{
    reveal(finish_calls);
    let metadata = KeyMetadata { key_label: key_label_or_default(key_label), filesystem };
    ports.announce_create(progress, CreateStage::EnrollingFido2Key);
    ports.enroll_fido2_key(mapper, metadata, fido2_selection, user_verification, client_pin)?;
    ports.announce_create(progress, CreateStage::CreatingFilesystem);
    ports.mkfs(mapper, filesystem)?;
    if scaffold_hooks {
        ports.announce_create(progress, CreateStage::ScaffoldingHookTemplates);
        let mountpoint = ports.mount(mapper, false)?;
        let scaffolded = ports.scaffold_hook_templates(mountpoint.as_str());
        let unmounted = ports.umount(mapper);
        outcome_with_cleanup(scaffolded, unmounted, "unmount the filesystem")?;
    }
    ports.remove_marker_token(mapper.source_path.as_str())?;
    remove_keyslot_guarded(ports, mapper.source_path.as_str(), KeyslotRef(0))
}

/// Derives the mapping name, clears a stale mapping of that name, formats
/// and opens the volume, provisions it, and closes the mapping again on
/// every path once it was opened.
fn bootstrap_and_provision<L: LuksBackend, F: Fido2Backend, S: FilesystemBackend, P: Fn(
    CreateStage,
)>(
    path: &str,
    size: u64,
    filesystem: Filesystem,
    user_verification: bool,
    client_pin: Option<bool>,
    key_label: Option<String>,
    scaffold_hooks: bool,
    fido2_selection: Fido2DeviceSelection,
    progress: &P,
    ports: &mut Ports<'_, L, F, S>,
) -> (r: Result<(), DomainError>)
    requires
        forall|stage: CreateStage| #[trigger] progress.requires((stage,)),
    ensures
        final(ports).keeps(*old(ports)),
        extends(old(ports).log(), final(ports).log()),
        bootstrap_outcome(
            old(ports).luks(),
            old(ports).fido2(),
            old(ports).fs(),
            path,
            size,
            filesystem,
            user_verification,
            client_pin,
            key_label,
            scaffold_hooks,
            fido2_selection,
            r,
        ),
        r is Ok ==> announced(progress, CreateStage::FormattingLuks2) && announced(
            progress,
            CreateStage::EnrollingFido2Key,
        ) && announced(progress, CreateStage::CreatingFilesystem) && (scaffold_hooks ==> announced(
            progress,
            CreateStage::ScaffoldingHookTemplates,
        )),
        provisioning_calls(
            final(ports).log(),
            old(ports).log().len() as int,
            path@,
            size,
            filesystem,
            scaffold_hooks,
        ),
{
    let name = mapping_name(ports, path)?;
    ports.close_stale_mapping(name.as_str())?;
    ports.announce_create(progress, CreateStage::FormattingLuks2);
    let mapper = ports.bootstrap_format_and_open(path, name.as_str(), size, filesystem)?;
    let ghost opened_log = ports.log();
    let provisioned = finish_provisioning(
        &mapper,
        filesystem,
        user_verification,
        client_pin,
        key_label,
        scaffold_hooks,
        fido2_selection,
        progress,
        ports,
    );
    let ghost provisioned_log = ports.log();
    let closed = ports.close(&mapper);
    proof {
        assert(ports.log().drop_last() =~= provisioned_log);
        assert(finish_calls(
            ports.log().drop_last(),
            opened_log.len() as int,
            mapper,
            filesystem,
            scaffold_hooks,
            provisioned,
        ));
    }
    outcome_with_cleanup(provisioned, closed, "re-lock the LUKS2 mapping")
}

/// `r` is what creating on a file target returns once the existence check
/// is settled (`exists_unmarked`), for some answers the ports gave: the
/// check's refusal; the allocation's failure; else the bootstrap.
pub open spec fn file_checked_outcome<L: LuksBackend, F: Fido2Backend, S: FilesystemBackend>(
    luks: &L,
    fido2: &F,
    fs: &S,
    path: Seq<char>,
    size: u64,
    filesystem: Filesystem,
    exists_unmarked: bool,
    user_verification: bool,
    client_pin: Option<bool>,
    key_label: Option<String>,
    scaffold_hooks: bool,
    fido2_selection: Fido2DeviceSelection,
    r: Result<(), DomainError>,
) -> bool {
    if exists_unmarked || size < floor_of(filesystem) {
        r matches Err(e) && file_target_refusal(path, size, filesystem, exists_unmarked, e)
    } else {
        exists|p: &str, allocated: Result<(), DomainError>|
            #[trigger] call_ensures(S::set_backing_file_size, (fs, p, size), allocated) && p@ == path
                && match allocated {
                Err(_) => r == allocated,
                Ok(_) => (r is Err ==> exists|q: &str, removed: Result<(), DomainError>|
                    #[trigger] call_ensures(S::remove_backing_file, (fs, q), removed) && q@ == path)
                    && exists|q: &str|
                    #[trigger] bootstrap_outcome(
                        luks,
                        fido2,
                        fs,
                        q,
                        size,
                        filesystem,
                        user_verification,
                        client_pin,
                        key_label,
                        scaffold_hooks,
                        fido2_selection,
                        r,
                    ) && q@ == path,
            }
    }
}

/// `r` is what creating on a file target returns after its lock, for some
/// answers the ports gave: an existing path is a resume only when it
/// carries the marker (a failed marker check is the error).
pub open spec fn file_create_outcome<L: LuksBackend, F: Fido2Backend, S: FilesystemBackend>(
    luks: &L,
    fido2: &F,
    fs: &S,
    path: Seq<char>,
    size: u64,
    filesystem: Filesystem,
    user_verification: bool,
    client_pin: Option<bool>,
    key_label: Option<String>,
    scaffold_hooks: bool,
    fido2_selection: Fido2DeviceSelection,
    r: Result<(), DomainError>,
) -> bool {
    exists|p: &str, present: bool|
        #[trigger] call_ensures(S::path_exists, (fs, p), present) && p@ == path && if present {
            exists|q: &str, marked: Result<bool, DomainError>|
                #[trigger] call_ensures(L::has_marker_token, (luks, q), marked) && q@ == path
                    && match marked {
                    Err(e) => r == Err::<(), DomainError>(e),
                    Ok(m) => file_checked_outcome(
                        luks,
                        fido2,
                        fs,
                        path,
                        size,
                        filesystem,
                        !m,
                        user_verification,
                        client_pin,
                        key_label,
                        scaffold_hooks,
                        fido2_selection,
                        r,
                    ),
                }
        } else {
            file_checked_outcome(
                luks,
                fido2,
                fs,
                path,
                size,
                filesystem,
                false,
                user_verification,
                client_pin,
                key_label,
                scaffold_hooks,
                fido2_selection,
                r,
            )
        }
}

/// `r` is what creating on a device target returns once its header and
/// marker are known, for some answers the ports gave: the target check's
/// refusal; the capacity lookup's failure; the size check's refusal; else
/// the bootstrap at the resolved size.
pub open spec fn device_checked_outcome<L: LuksBackend, F: Fido2Backend, S: FilesystemBackend>(
    luks: &L,
    fido2: &F,
    fs: &S,
    path: Seq<char>,
    requested: Option<u64>,
    has_header: bool,
    has_marker: bool,
    confirmed: bool,
    filesystem: Filesystem,
    user_verification: bool,
    client_pin: Option<bool>,
    key_label: Option<String>,
    scaffold_hooks: bool,
    fido2_selection: Fido2DeviceSelection,
    r: Result<(), DomainError>,
) -> bool {
    if !device_target_accepted(has_header, has_marker, confirmed) {
        r matches Err(e) && device_target_refusal(path, has_header, e)
    } else {
        exists|p: &str, capacity: Result<u64, DomainError>|
            #[trigger] call_ensures(S::device_capacity, (fs, p), capacity) && p@ == path
                && match capacity {
                Err(e) => r == Err::<(), DomainError>(e),
                Ok(c) => if (requested matches Some(n) && n > c) || resolved_device_size(requested, c)
                    < floor_of(filesystem) {
                    r matches Err(e) && device_size_refusal(path, requested, c, e)
                } else {
                    exists|q: &str|
                        #[trigger] bootstrap_outcome(
                            luks,
                            fido2,
                            fs,
                            q,
                            resolved_device_size(requested, c),
                            filesystem,
                            user_verification,
                            client_pin,
                            key_label,
                            scaffold_hooks,
                            fido2_selection,
                            r,
                        ) && q@ == path
                },
            }
    }
}

/// `r` is what creating on a device target returns after its lock, for
/// some answers the ports gave: the header check's failure, the marker
/// check's failure (asked only of a device with a header), else the rest.
pub open spec fn device_create_outcome<L: LuksBackend, F: Fido2Backend, S: FilesystemBackend>(
    luks: &L,
    fido2: &F,
    fs: &S,
    path: Seq<char>,
    requested: Option<u64>,
    confirmed: bool,
    filesystem: Filesystem,
    user_verification: bool,
    client_pin: Option<bool>,
    key_label: Option<String>,
    scaffold_hooks: bool,
    fido2_selection: Fido2DeviceSelection,
    r: Result<(), DomainError>,
) -> bool {
    exists|p: &str, header: Result<bool, DomainError>|
        #[trigger] call_ensures(L::has_luks2_header, (luks, p), header) && p@ == path && match header {
            Err(e) => r == Err::<(), DomainError>(e),
            Ok(h) => if h {
                exists|q: &str, marked: Result<bool, DomainError>|
                    #[trigger] call_ensures(L::has_marker_token, (luks, q), marked) && q@ == path
                        && match marked {
                        Err(e) => r == Err::<(), DomainError>(e),
                        Ok(m) => device_checked_outcome(
                            luks,
                            fido2,
                            fs,
                            path,
                            requested,
                            true,
                            m,
                            confirmed,
                            filesystem,
                            user_verification,
                            client_pin,
                            key_label,
                            scaffold_hooks,
                            fido2_selection,
                            r,
                        ),
                    }
            } else {
                device_checked_outcome(
                    luks,
                    fido2,
                    fs,
                    path,
                    requested,
                    false,
                    false,
                    confirmed,
                    filesystem,
                    user_verification,
                    client_pin,
                    key_label,
                    scaffold_hooks,
                    fido2_selection,
                    r,
                )
            },
        }
}

/// Creates a volume on `target`. A file destination that already exists is
/// refused unless it carries the interrupted-create marker (a resume); a
/// device with a LUKS2 header is refused unless it carries the marker; a
/// fresh device needs the wipe confirmed; sizes below the filesystem's
/// floor, or above a device's capacity, are refused before anything is
/// written. `user_verification` and `client_pin` reach the first key's
/// enrollment as given. `progress` is told each stage as it starts. A backing file this
/// call allocated is removed again when a later step fails.
pub fn run<L: LuksBackend, F: Fido2Backend, S: FilesystemBackend, P: Fn(CreateStage)>(
    target: CreateTarget,
    filesystem: Filesystem,
    user_verification: bool,
    client_pin: Option<bool>,
    key_label: Option<String>,
    scaffold_hooks: bool,
    fido2_selection: Fido2DeviceSelection,
    progress: &P,
    ports: &mut Ports<'_, L, F, S>,
) -> (r: Result<(), DomainError>)
    requires
        forall|stage: CreateStage| #[trigger] progress.requires((stage,)),
    ensures
        final(ports).keeps(*old(ports)),
        extends(old(ports).log(), final(ports).log()),
        preflight::opens_with_preflight(old(ports).log(), final(ports).log(), Some(filesystem)),
        target matches CreateTarget::File { size, .. } ==> (r is Ok ==> size >= floor_of(
            filesystem,
        )),
        target matches CreateTarget::File { size, .. } ==> (size < floor_of(filesystem)
            ==> r is Err),
        target matches CreateTarget::Device { size: Some(n), .. } ==> (r is Ok ==> n >= floor_of(
            filesystem,
        )),
        r is Ok ==> announced(progress, CreateStage::FormattingLuks2) && announced(
            progress,
            CreateStage::EnrollingFido2Key,
        ) && announced(progress, CreateStage::CreatingFilesystem) && (scaffold_hooks ==> announced(
            progress,
            CreateStage::ScaffoldingHookTemplates,
        )) && (target is File ==> announced(progress, CreateStage::AllocatingBackingFile)),
        preflight::passed_at(final(ports).log(), old(ports).log().len() as int) ==> create_calls(
            final(ports).log(),
            old(ports).log().len() + 3int,
            target,
            filesystem,
            scaffold_hooks,
            r,
        ),
        exists|pre: Result<(), DomainError>|
            #[trigger] preflight::check_outcome(old(ports).luks(), old(ports).fido2(), old(ports).fs(), Some(filesystem), pre) && match pre {
                Err(e) => r == Err::<(), DomainError>(e),
                Ok(_) => exists|p: &str, lock: Result<S::LockGuard, DomainError>|
                    #[trigger] call_ensures(S::lock_target, (old(ports).fs(), p), lock) && match target {
                        CreateTarget::File { path, size } => p@ == path@ && match lock {
                            Err(e) => r == Err::<(), DomainError>(e),
                            Ok(_) => file_create_outcome(
                                old(ports).luks(),
                                old(ports).fido2(),
                                old(ports).fs(),
                                path@,
                                size,
                                filesystem,
                                user_verification,
                                client_pin,
                                key_label,
                                scaffold_hooks,
                                fido2_selection,
                                r,
                            ),
                        },
                        CreateTarget::Device { path, size, confirmed } => p@ == path@ && match lock {
                            Err(e) => r == Err::<(), DomainError>(e),
                            Ok(_) => device_create_outcome(
                                old(ports).luks(),
                                old(ports).fido2(),
                                old(ports).fs(),
                                path@,
                                size,
                                confirmed,
                                filesystem,
                                user_verification,
                                client_pin,
                                key_label,
                                scaffold_hooks,
                                fido2_selection,
                                r,
                            ),
                        },
                    },
            },
{
    preflight::check(ports, Some(filesystem))?;
    match target {
        CreateTarget::File { path, size } => {
            let _lock = ports.lock_target(path.as_str())?;
            let exists_unmarked = if ports.path_exists(path.as_str()) {
                !ports.has_marker_token(path.as_str())?
            } else {
                false
            };
            check_file_target(path.as_str(), size, filesystem, exists_unmarked)?;
            ports.announce_create(progress, CreateStage::AllocatingBackingFile);
            ports.set_backing_file_size(path.as_str(), size)?;
            let result = bootstrap_and_provision(
                path.as_str(),
                size,
                filesystem,
                user_verification,
                client_pin,
                key_label,
                scaffold_hooks,
                fido2_selection,
                progress,
                ports,
            );
            let ghost provisioned_log = ports.log();
            if result.is_err() {
                let _ = ports.remove_backing_file(path.as_str());
                assert(ports.log().drop_last() =~= provisioned_log);
            }
            result
        },
        CreateTarget::Device { path, size, confirmed } => {
            let _lock = ports.lock_target(path.as_str())?;
            let has_header = ports.has_luks2_header(path.as_str())?;
            let has_marker = if has_header {
                ports.has_marker_token(path.as_str())?
            } else {
                false
            };
            check_device_target(path.as_str(), has_header, has_marker, confirmed)?;
            let capacity = ports.device_capacity(path.as_str())?;
            let resolved = resolve_device_size(path.as_str(), size, capacity, filesystem)?;
            bootstrap_and_provision(
                path.as_str(),
                resolved,
                filesystem,
                user_verification,
                client_pin,
                key_label,
                scaffold_hooks,
                fido2_selection,
                progress,
                ports,
            )
        },
    }
}

/// The size floors: 32 MiB for ext4 and btrfs, 350 MiB for xfs (`mkfs.xfs`
/// refuses filesystems under 300 MB); no target below its filesystem's
/// floor is accepted.
pub proof fn law_size_floors(size: u64, filesystem: Filesystem)
    ensures
        floor_of(Filesystem::Ext4) == 32 * 1024 * 1024,
        floor_of(Filesystem::Btrfs) == 32 * 1024 * 1024,
        floor_of(Filesystem::Xfs) == 350 * 1024 * 1024,
        filesystem == Filesystem::Xfs && size < 350 * 1024 * 1024 ==> size < floor_of(filesystem),
        size < 32 * 1024 * 1024 ==> size < floor_of(filesystem),
{
}

/// A resolved device size is never above the device's capacity (when a size
/// was requested) and never below the filesystem's floor.
pub proof fn law_device_size_bounds(requested: Option<u64>, capacity: u64, filesystem: Filesystem)
    requires
        !(requested matches Some(n) && n > capacity),
        resolved_device_size(requested, capacity) >= floor_of(filesystem),
    ensures
        resolved_device_size(requested, capacity) <= capacity,
        resolved_device_size(requested, capacity) >= MIN_VOLUME_SIZE_BYTES,
{
}

} // verus!
