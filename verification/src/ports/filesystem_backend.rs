//! The filesystem/process port: everything that touches the host's
//! filesystems, mounts and processes.
use vstd::prelude::*;

use crate::domain::errors::DomainError;
use crate::domain::hooks::rejection_of;
use crate::domain::types::{Filesystem, HookFileMeta, MapperHandle, Pid, Signal};

verus! {

pub trait FilesystemBackend {
    /// What `lock_target` hands back: held for the rest of a mutating
    /// workflow; dropping it releases the lock.
    type LockGuard;

    /// `Err` names every missing dependency; `filesystem` narrows the check
    /// to that filesystem's own toolchain.
    fn check_prerequisites(&self, filesystem: Option<Filesystem>) -> Result<(), Vec<String>>;

    /// Takes the per-volume operation lock for `path`;
    /// `Err(LockContention)` when another operation holds it.
    fn lock_target(&self, path: &str) -> Result<Self::LockGuard, DomainError>;

    /// The canonical absolute form of `path`; `Err` carries the reason.
    fn canonicalize(&self, path: &str) -> Result<String, String>;

    /// The text of the file at `path`, or `None` when it cannot be read.
    fn read_text_file(&self, path: &str) -> Option<String>;

    /// Whether `path` exists.
    fn path_exists(&self, path: &str) -> bool;

    /// Whether `path` is a block device (as opposed to a regular file).
    fn is_block_device(&self, path: &str) -> Result<bool, DomainError>;

    /// Byte capacity of the block device (or mapper node) at `path`.
    fn device_capacity(&self, path: &str) -> Result<u64, DomainError>;

    /// Whether `path` itself, not followed through a symlink, is a regular
    /// file.
    fn is_regular_file(&self, path: &str) -> Result<bool, DomainError>;

    /// The current length of the file at `path`.
    fn file_len(&self, path: &str) -> Result<u64, DomainError>;

    /// Creates (or grows) the backing file at `path` to `size` bytes.
    fn set_backing_file_size(&self, path: &str, size: u64) -> Result<(), DomainError>;

    /// Formats the opened mapping with `fs`.
    fn mkfs(&self, mapper: &MapperHandle, fs: Filesystem) -> Result<(), DomainError>;

    /// Grows `fs` on the already-resized mapping to fill it.
    fn growfs(&self, mapper: &MapperHandle, fs: Filesystem) -> Result<(), DomainError>;

    /// The filesystem's own current size on the open mapping.
    fn filesystem_size(&self, mapper: &MapperHandle, fs: Filesystem) -> Result<u64, DomainError>;

    /// Best-effort removal of a backing file this tool created.
    fn remove_backing_file(&self, path: &str) -> Result<(), DomainError>;

    /// Mounts the mapping at a fresh mount point and returns it.
    fn mount(&self, mapper: &MapperHandle, read_only: bool) -> Result<String, DomainError>;

    /// Unmounts the mapping, resolving its live mount point itself.
    fn umount(&self, mapper: &MapperHandle) -> Result<(), DomainError>;

    /// Bind-mounts `source` onto `dest`.
    fn bind_mount(&self, source: &str, dest: &str) -> Result<(), DomainError>;

    /// `stat`/`lstat` facts about a candidate `exec-hooks` file.
    fn hook_file_metadata(&self, path: &str) -> Result<HookFileMeta, DomainError>;

    /// Runs `path` with `args`, unprivileged. `Ok` carries the exit code
    /// (`None` when the process was ended by a signal); `Err` only when it
    /// could not be started.
    /// Only ever asked for a file whose metadata this port reported and
    /// which that metadata shows to pass the `exec-hooks` guardrail.
    fn run_hook(&self, path: &str, args: &[String]) -> Result<Option<i32>, DomainError>
        requires
            exists|meta: HookFileMeta|
                #[trigger] call_ensures(
                    Self::hook_file_metadata,
                    (self, path),
                    Ok::<HookFileMeta, DomainError>(meta),
                ) && rejection_of(meta) is None,
    ;

    /// The invoking user's home directory.
    fn invoking_home_dir(&self) -> Result<String, DomainError>;

    /// The mapping's live mount point, from the kernel's mount table.
    fn mount_point_of(&self, mapper: &MapperHandle) -> Result<String, DomainError>;

    /// Unmounts one `bind-hooks` destination.
    fn unmount_bind_hook_destination(&self, dest: &str) -> Result<(), DomainError>;

    /// Every process id holding `mountpoint` open; empty when none does.
    fn processes_using(&self, mountpoint: &str) -> Result<Vec<Pid>, DomainError>;

    /// Sends `signal` to `pid`; never asked for PID 0 (the caller's whole
    /// process group) or PID 1 (init).
    fn signal_process(&self, pid: Pid, signal: Signal) -> Result<(), DomainError>
        requires
            pid.0 > 1,
    ;

    /// Waits out the fixed pause slam leaves between escalation rounds.
    fn escalation_pause(&self);

    /// Writes the `bind-hooks` and `exec-hooks.example` templates into
    /// `mountpoint`.
    fn scaffold_hook_templates(&self, mountpoint: &str) -> Result<(), DomainError>;
}

} // verus!
