//! The workflows driven through recording test doubles of the three ports.
use std::cell::{Cell, RefCell};
use std::collections::{HashMap, HashSet, VecDeque};
use std::path::{Path, PathBuf};
use std::rc::Rc;

use hypogaol::domain::errors::DomainError;
use hypogaol::domain::types::{
    Filesystem, HookFileMeta, KeyMetadata, KeyslotInfo, KeyslotRef, MapperHandle, Pid, Signal,
};
use hypogaol::ports::fido2_backend::{Fido2Backend, Fido2DeviceSelection};
use hypogaol::ports::filesystem_backend::FilesystemBackend;
use hypogaol::ports::journal::Ports;
use hypogaol::ports::luks_backend::LuksBackend;
use hypogaol::domain::hooks::{
    exec_hook_rejection, parse_bind_hooks, resolve_bind_hook_entry, BindHookEntry,
    BindHookSkipReason, HookRejectionReason, HookWarning,
};
use hypogaol::domain::keyslot_guard::remove_keyslot_guarded;
use hypogaol::domain::mapping_name;
use hypogaol::domain::preflight;
use hypogaol::domain::progress::{CreateStage, ResizeStage};
use hypogaol::domain::types::CreateTarget;
use hypogaol::domain::workflows::close;
use hypogaol::domain::workflows::close_all;
use hypogaol::domain::workflows::create::{self, MIN_VOLUME_SIZE_BYTES};
use hypogaol::domain::workflows::enroll;
use hypogaol::domain::workflows::info;
use hypogaol::domain::workflows::resize;
use hypogaol::domain::workflows::revoke;
use hypogaol::domain::workflows::slam;
use hypogaol::domain::workflows::unlock;

fn missing(deps: &[&str]) -> Vec<String> {
    deps.iter().map(|dep| dep.to_string()).collect()
}

/// Shared call log so a test can assert cross-port call ordering.
type CallLog = Rc<RefCell<Vec<String>>>;

fn new_call_log() -> CallLog {
    Rc::new(RefCell::new(Vec::new()))
}

/// No-op progress callback for tests that don't assert on stage ordering.
fn no_progress<S>(_stage: S) {}

/// A path as the `&str` the library's ports take.
fn text(path: &Path) -> &str {
    path.to_str().expect("test paths are UTF-8")
}

struct FakeLuksBackend {
    prerequisites: Result<(), Vec<String>>,
    keyslots: RefCell<Vec<KeyslotInfo>>,
    has_luks2_header: bool,
    has_marker_token: bool,
    log: CallLog,
    fail_at: Option<&'static str>,
    last_bootstrap_size: RefCell<Option<u64>>,
    last_open: RefCell<Option<(String, String, bool)>>,
    last_removed_keyslot: RefCell<Option<KeyslotRef>>,
    last_close: RefCell<Option<MapperHandle>>,
    last_resize: RefCell<Option<MapperHandle>>,
    read_filesystem: Filesystem,
    keyslots_sequence: RefCell<Option<VecDeque<Vec<KeyslotInfo>>>>,
    open_mappings: RefCell<Vec<MapperHandle>>,
    close_failure_for: RefCell<HashSet<String>>,
}

impl FakeLuksBackend {
    fn with_prerequisites(prerequisites: Result<(), Vec<String>>, keyslots: Vec<KeyslotInfo>) -> Self {
        Self {
            prerequisites,
            keyslots: RefCell::new(keyslots),
            has_luks2_header: false,
            has_marker_token: false,
            log: new_call_log(),
            fail_at: None,
            last_bootstrap_size: RefCell::new(None),
            last_open: RefCell::new(None),
            last_removed_keyslot: RefCell::new(None),
            last_close: RefCell::new(None),
            last_resize: RefCell::new(None),
            read_filesystem: Filesystem::Ext4,
            keyslots_sequence: RefCell::new(None),
            open_mappings: RefCell::new(Vec::new()),
            close_failure_for: RefCell::new(HashSet::new()),
        }
    }

    fn passing() -> Self {
        Self::with_prerequisites(
            Ok(()),
            vec![KeyslotInfo {
                keyslot: KeyslotRef(1),
                key_label: "primary".to_string(),
            }],
        )
    }

    fn failing(missing_deps: &[&str]) -> Self {
        Self::with_prerequisites(Err(missing(missing_deps)), Vec::new())
    }

    fn with_log(mut self, log: CallLog) -> Self {
        self.log = log;
        self
    }

    fn with_keyslots(self, keyslots: Vec<KeyslotInfo>) -> Self {
        *self.keyslots.borrow_mut() = keyslots;
        self
    }

    fn with_keyslots_sequence(self, sequence: Vec<Vec<KeyslotInfo>>) -> Self {
        *self.keyslots_sequence.borrow_mut() = Some(sequence.into());
        self
    }

    fn with_has_luks2_header(mut self, value: bool) -> Self {
        self.has_luks2_header = value;
        self
    }

    fn with_has_marker_token(mut self, value: bool) -> Self {
        self.has_marker_token = value;
        self
    }

    fn last_bootstrap_size(&self) -> Option<u64> {
        *self.last_bootstrap_size.borrow()
    }

    fn last_open(&self) -> Option<(String, String, bool)> {
        self.last_open.borrow().clone()
    }

    fn last_removed_keyslot(&self) -> Option<KeyslotRef> {
        *self.last_removed_keyslot.borrow()
    }

    fn last_close(&self) -> Option<MapperHandle> {
        self.last_close.borrow().clone()
    }

    fn last_resize(&self) -> Option<MapperHandle> {
        self.last_resize.borrow().clone()
    }

    fn with_read_filesystem(mut self, filesystem: Filesystem) -> Self {
        self.read_filesystem = filesystem;
        self
    }

    fn with_failure_at(mut self, call: &'static str) -> Self {
        self.fail_at = Some(call);
        self
    }

    fn with_open_mappings(self, mappings: Vec<MapperHandle>) -> Self {
        *self.open_mappings.borrow_mut() = mappings;
        self
    }

    fn with_close_failure_for(self, name: &str) -> Self {
        self.close_failure_for.borrow_mut().insert(name.to_string());
        self
    }

    fn fail_if(&self, call: &'static str) -> Result<(), DomainError> {
        if self.fail_at == Some(call) {
            Err(DomainError::AdapterFailure(format!("{call} failed (test)")))
        } else {
            Ok(())
        }
    }
}

impl LuksBackend for FakeLuksBackend {
    fn check_prerequisites(&self) -> Result<(), Vec<String>> {
        self.prerequisites.clone()
    }

    fn has_luks2_header(&self, _path: &str) -> Result<bool, DomainError> {
        self.log.borrow_mut().push("has_luks2_header".to_string());
        self.fail_if("has_luks2_header")?;
        Ok(self.has_luks2_header)
    }

    fn has_marker_token(&self, _path: &str) -> Result<bool, DomainError> {
        self.log.borrow_mut().push("has_marker_token".to_string());
        self.fail_if("has_marker_token")?;
        Ok(self.has_marker_token)
    }

    fn remove_marker_token(&self, _path: &str) -> Result<(), DomainError> {
        self.log.borrow_mut().push("remove_marker_token".to_string());
        self.fail_if("remove_marker_token")
    }

    fn close_stale_mapping(&self, _name: &str) -> Result<(), DomainError> {
        self.log.borrow_mut().push("close_stale_mapping".to_string());
        self.fail_if("close_stale_mapping")
    }

    fn bootstrap_format_and_open(
        &self,
        path: &str,
        name: &str,
        size: u64,
        _filesystem: Filesystem,
    ) -> Result<MapperHandle, DomainError> {
        self.log.borrow_mut().push("bootstrap_format_and_open".to_string());
        *self.last_bootstrap_size.borrow_mut() = Some(size);
        self.fail_if("bootstrap_format_and_open")?;
        Ok(MapperHandle {
            name: name.to_string(),
            source_path: path.to_string(),
        })
    }

    fn list_fido2_keyslots(&self, _path: &str) -> Result<Vec<KeyslotInfo>, DomainError> {
        self.log.borrow_mut().push("list_fido2_keyslots".to_string());
        self.fail_if("list_fido2_keyslots")?;
        if let Some(next) = self
            .keyslots_sequence
            .borrow_mut()
            .as_mut()
            .and_then(VecDeque::pop_front)
        {
            return Ok(next);
        }
        Ok(self.keyslots.borrow().clone())
    }

    fn remove_key(&self, _path: &str, keyslot: KeyslotRef) -> Result<(), DomainError> {
        self.log.borrow_mut().push("remove_key".to_string());
        *self.last_removed_keyslot.borrow_mut() = Some(keyslot);
        self.fail_if("remove_key")
    }

    fn close(&self, mapper: &MapperHandle) -> Result<(), DomainError> {
        self.log.borrow_mut().push("close".to_string());
        *self.last_close.borrow_mut() = Some(mapper.clone());
        if self.close_failure_for.borrow().contains(&mapper.name) {
            return Err(DomainError::AdapterFailure(format!(
                "close failed (test) for {}",
                mapper.name
            )));
        }
        self.fail_if("close")
    }

    fn open(&self, path: &str, name: &str, read_only: bool) -> Result<MapperHandle, DomainError> {
        self.log.borrow_mut().push("open".to_string());
        *self.last_open.borrow_mut() = Some((path.to_string(), name.to_string(), read_only));
        self.fail_if("open")?;
        Ok(MapperHandle {
            name: name.to_string(),
            source_path: path.to_string(),
        })
    }

    fn resize(&self, mapper: &MapperHandle) -> Result<(), DomainError> {
        self.log.borrow_mut().push("resize".to_string());
        *self.last_resize.borrow_mut() = Some(mapper.clone());
        self.fail_if("resize")
    }

    fn read_filesystem(&self, _path: &str) -> Result<Filesystem, DomainError> {
        self.log.borrow_mut().push("read_filesystem".to_string());
        self.fail_if("read_filesystem")?;
        Ok(self.read_filesystem)
    }

    fn list_open_mappings(&self) -> Result<Vec<MapperHandle>, DomainError> {
        self.log.borrow_mut().push("list_open_mappings".to_string());
        self.fail_if("list_open_mappings")?;
        Ok(self.open_mappings.borrow().clone())
    }
}

struct FakeFido2Backend {
    prerequisites: Result<(), Vec<String>>,
    log: CallLog,
    fail_at: Option<&'static str>,
    user_verification_received: Cell<Option<bool>>,
    client_pin_received: Cell<Option<Option<bool>>>,
    key_label_received: RefCell<Option<String>>,
    selection_received: RefCell<Option<Fido2DeviceSelection>>,
}

impl FakeFido2Backend {
    fn with_prerequisites(prerequisites: Result<(), Vec<String>>) -> Self {
        Self {
            prerequisites,
            log: new_call_log(),
            fail_at: None,
            user_verification_received: Cell::new(None),
            client_pin_received: Cell::new(None),
            key_label_received: RefCell::new(None),
            selection_received: RefCell::new(None),
        }
    }

    fn passing() -> Self {
        Self::with_prerequisites(Ok(()))
    }

    fn failing(missing_deps: &[&str]) -> Self {
        Self::with_prerequisites(Err(missing(missing_deps)))
    }

    fn with_log(mut self, log: CallLog) -> Self {
        self.log = log;
        self
    }

    fn with_failure_at(mut self, call: &'static str) -> Self {
        self.fail_at = Some(call);
        self
    }

    fn user_verification_received(&self) -> Option<bool> {
        self.user_verification_received.get()
    }

    fn client_pin_received(&self) -> Option<Option<bool>> {
        self.client_pin_received.get()
    }

    fn key_label_received(&self) -> Option<String> {
        self.key_label_received.borrow().clone()
    }

    fn selection_received(&self) -> Option<Fido2DeviceSelection> {
        self.selection_received.borrow().clone()
    }
}

impl Fido2Backend for FakeFido2Backend {
    fn check_prerequisites(&self) -> Result<(), Vec<String>> {
        self.prerequisites.clone()
    }

    fn enroll_fido2_key(
        &self,
        _mapper: &MapperHandle,
        metadata: KeyMetadata,
        selection: Fido2DeviceSelection,
        user_verification: bool,
        client_pin: Option<bool>,
    ) -> Result<(), DomainError> {
        self.log.borrow_mut().push("enroll_fido2_key".to_string());
        self.user_verification_received.set(Some(user_verification));
        self.client_pin_received.set(Some(client_pin));
        *self.key_label_received.borrow_mut() = Some(metadata.key_label.clone());
        *self.selection_received.borrow_mut() = Some(selection);
        if self.fail_at == Some("enroll_fido2_key") {
            return Err(DomainError::AdapterFailure(
                "enroll_fido2_key failed (test)".to_string(),
            ));
        }
        Ok(())
    }
}

/// Default fake device capacity: large enough that tests which don't care
/// about sizing never trip `DeviceSizeExceedsCapacity`.
const DEFAULT_DEVICE_CAPACITY: u64 = 1024u64.pow(4);

struct FakeFilesystemBackend {
    prerequisites: Result<(), Vec<String>>,
    path_exists: bool,
    is_block_device: bool,
    device_capacity: u64,
    mapper_capacity: Option<u64>,
    filesystem_size: Option<u64>,
    log: CallLog,
    fail_at: Option<&'static str>,
    umount_not_currently_mounted: bool,
    last_umount: RefCell<Option<MapperHandle>>,
    last_growfs_filesystem: RefCell<Option<Filesystem>>,
    last_mount_read_only: RefCell<Option<bool>>,
    hook_file_metadata: Cell<HookFileMeta>,
    invoking_home_dir: PathBuf,
    mount_point_of: RefCell<Option<PathBuf>>,
    bind_mount_failure: bool,
    run_hook_exit_code: Cell<Option<i32>>,
    last_run_hook: RefCell<Option<(PathBuf, Vec<String>)>>,
    path_exists_sequence: RefCell<Option<VecDeque<bool>>>,
    umount_failure_for: RefCell<HashSet<String>>,
    processes_using_result: RefCell<Vec<Pid>>,
    umount_fail_times: Cell<u32>,
    last_signal_calls: RefCell<Vec<(Pid, Signal)>>,
    last_scaffold_hook_templates_mountpoint: RefCell<Option<String>>,
    check_prerequisites_filesystem_calls: RefCell<Vec<Option<Filesystem>>>,
    fail_for_filesystem: RefCell<Option<(Option<Filesystem>, Vec<String>)>>,
    lock_contention: bool,
    log_locks: bool,
    lock_target_calls: RefCell<Vec<String>>,
    files: RefCell<HashMap<String, String>>,
    file_lens: RefCell<HashMap<String, u64>>,
    missing_paths: RefCell<HashSet<String>>,
    irregular_paths: RefCell<HashSet<String>>,
}

fn passing_hook_file_meta() -> HookFileMeta {
    HookFileMeta {
        is_regular_file: true,
        is_symlink: false,
        is_executable: true,
        owned_by_invoking_user_or_root: true,
        is_world_writable: false,
    }
}

impl FakeFilesystemBackend {
    fn with_prerequisites(prerequisites: Result<(), Vec<String>>) -> Self {
        Self {
            prerequisites,
            path_exists: false,
            is_block_device: false,
            device_capacity: DEFAULT_DEVICE_CAPACITY,
            mapper_capacity: None,
            filesystem_size: None,
            log: new_call_log(),
            fail_at: None,
            umount_not_currently_mounted: false,
            last_umount: RefCell::new(None),
            last_growfs_filesystem: RefCell::new(None),
            last_mount_read_only: RefCell::new(None),
            hook_file_metadata: Cell::new(passing_hook_file_meta()),
            invoking_home_dir: PathBuf::from("/home/fake-user"),
            mount_point_of: RefCell::new(None),
            bind_mount_failure: false,
            run_hook_exit_code: Cell::new(Some(0)),
            last_run_hook: RefCell::new(None),
            path_exists_sequence: RefCell::new(None),
            umount_failure_for: RefCell::new(HashSet::new()),
            processes_using_result: RefCell::new(Vec::new()),
            umount_fail_times: Cell::new(0),
            last_signal_calls: RefCell::new(Vec::new()),
            last_scaffold_hook_templates_mountpoint: RefCell::new(None),
            check_prerequisites_filesystem_calls: RefCell::new(Vec::new()),
            fail_for_filesystem: RefCell::new(None),
            lock_contention: false,
            log_locks: false,
            lock_target_calls: RefCell::new(Vec::new()),
            files: RefCell::new(HashMap::new()),
            file_lens: RefCell::new(HashMap::new()),
            missing_paths: RefCell::new(HashSet::new()),
            irregular_paths: RefCell::new(HashSet::new()),
        }
    }

    fn passing() -> Self {
        Self::with_prerequisites(Ok(()))
    }

    fn failing(missing_deps: &[&str]) -> Self {
        Self::with_prerequisites(Err(missing(missing_deps)))
    }

    fn with_log(mut self, log: CallLog) -> Self {
        self.log = log;
        self
    }

    fn with_path_exists(mut self, value: bool) -> Self {
        self.path_exists = value;
        self
    }

    fn with_path_exists_sequence(self, sequence: Vec<bool>) -> Self {
        *self.path_exists_sequence.borrow_mut() = Some(sequence.into());
        self
    }

    fn with_is_block_device(mut self, value: bool) -> Self {
        self.is_block_device = value;
        self
    }

    fn with_device_capacity(mut self, value: u64) -> Self {
        self.device_capacity = value;
        self
    }

    fn with_mapper_capacity(mut self, value: u64) -> Self {
        self.mapper_capacity = Some(value);
        self
    }

    fn with_filesystem_size(mut self, value: u64) -> Self {
        self.filesystem_size = Some(value);
        self
    }

    fn with_failure_at(mut self, call: &'static str) -> Self {
        self.fail_at = Some(call);
        self
    }

    fn with_umount_not_currently_mounted(mut self) -> Self {
        self.umount_not_currently_mounted = true;
        self
    }

    fn with_umount_failure_for(self, name: &str) -> Self {
        self.umount_failure_for.borrow_mut().insert(name.to_string());
        self
    }

    fn last_umount(&self) -> Option<MapperHandle> {
        self.last_umount.borrow().clone()
    }

    fn last_growfs_filesystem(&self) -> Option<Filesystem> {
        *self.last_growfs_filesystem.borrow()
    }

    fn last_mount_read_only(&self) -> Option<bool> {
        *self.last_mount_read_only.borrow()
    }

    fn with_hook_file_metadata(self, meta: HookFileMeta) -> Self {
        self.hook_file_metadata.set(meta);
        self
    }

    fn with_invoking_home_dir(mut self, home: PathBuf) -> Self {
        self.invoking_home_dir = home;
        self
    }

    fn with_mount_point_of(self, mountpoint: PathBuf) -> Self {
        *self.mount_point_of.borrow_mut() = Some(mountpoint);
        self
    }

    fn with_bind_mount_failure(mut self) -> Self {
        self.bind_mount_failure = true;
        self
    }

    fn with_run_hook_exit_status(self, code: Option<i32>) -> Self {
        self.run_hook_exit_code.set(code);
        self
    }

    fn last_run_hook(&self) -> Option<(PathBuf, Vec<String>)> {
        self.last_run_hook.borrow().clone()
    }

    fn fail_if(&self, call: &'static str) -> Result<(), DomainError> {
        if self.fail_at == Some(call) {
            Err(DomainError::AdapterFailure(format!("{call} failed (test)")))
        } else {
            Ok(())
        }
    }

    fn with_processes_using(self, pids: Vec<Pid>) -> Self {
        *self.processes_using_result.borrow_mut() = pids;
        self
    }

    fn with_umount_fail_times(self, times: u32) -> Self {
        self.umount_fail_times.set(times);
        self
    }

    fn signal_calls(&self) -> Vec<(Pid, Signal)> {
        self.last_signal_calls.borrow().clone()
    }

    fn last_scaffold_hook_templates_mountpoint(&self) -> Option<String> {
        self.last_scaffold_hook_templates_mountpoint.borrow().clone()
    }

    fn check_prerequisites_filesystem_calls(&self) -> Vec<Option<Filesystem>> {
        self.check_prerequisites_filesystem_calls.borrow().clone()
    }

    fn with_failure_for_filesystem(
        self,
        filesystem: Option<Filesystem>,
        missing_deps: &[&str],
    ) -> Self {
        *self.fail_for_filesystem.borrow_mut() = Some((filesystem, missing(missing_deps)));
        self
    }

    /// Makes every `lock_target` call report that another operation holds
    /// the lock.
    fn with_lock_contention(mut self) -> Self {
        self.lock_contention = true;
        self
    }

    /// Records each `lock_target` call in the shared call log too.
    fn with_lock_logging(mut self) -> Self {
        self.log_locks = true;
        self
    }

    /// Every path passed to `lock_target`, in call order.
    fn lock_target_calls(&self) -> Vec<String> {
        self.lock_target_calls.borrow().clone()
    }

    /// Puts a text file at `path` for `read_text_file` to find.
    fn write_file(&self, path: impl AsRef<Path>, content: &str) {
        self.files
            .borrow_mut()
            .insert(text(path.as_ref()).to_string(), content.to_string());
    }

    /// Gives the regular file at `path` a length for `file_len`.
    fn set_file_len(&self, path: &str, len: u64) {
        self.file_lens.borrow_mut().insert(path.to_string(), len);
    }

    /// Makes `path` something other than a regular file, as a symlink is.
    fn with_irregular_path(self, path: &str) -> Self {
        self.irregular_paths.borrow_mut().insert(path.to_string());
        self
    }

    /// Makes `canonicalize` fail for `path`, as for a path that does not
    /// exist.
    fn with_missing_path(self, path: &str) -> Self {
        self.missing_paths.borrow_mut().insert(path.to_string());
        self
    }
}

/// The working directory relative paths are resolved against.
const WORKING_DIR: &str = "/work";

/// Lexical canonicalization: absolute, with `.`, `..` and repeated `/`
/// resolved (these doubles have no symlinks).
fn normalize(path: &str) -> String {
    let full = if path.starts_with('/') {
        path.to_string()
    } else {
        format!("{WORKING_DIR}/{path}")
    };
    let mut parts: Vec<&str> = Vec::new();
    for part in full.split('/') {
        match part {
            "" | "." => {}
            ".." => {
                parts.pop();
            }
            other => parts.push(other),
        }
    }
    format!("/{}", parts.join("/"))
}

impl FilesystemBackend for FakeFilesystemBackend {
    type LockGuard = ();

    fn check_prerequisites(&self, filesystem: Option<Filesystem>) -> Result<(), Vec<String>> {
        self.log.borrow_mut().push("check_prerequisites".to_string());
        self.check_prerequisites_filesystem_calls
            .borrow_mut()
            .push(filesystem);
        if let Some((target, missing_deps)) = self.fail_for_filesystem.borrow().as_ref() {
            if *target == filesystem {
                return Err(missing_deps.clone());
            }
        }
        self.prerequisites.clone()
    }

    fn lock_target(&self, path: &str) -> Result<(), DomainError> {
        self.lock_target_calls.borrow_mut().push(path.to_string());
        if self.log_locks {
            self.log.borrow_mut().push("lock_target".to_string());
        }
        if self.lock_contention {
            return Err(DomainError::LockContention(path.to_string()));
        }
        Ok(())
    }

    fn canonicalize(&self, path: &str) -> Result<String, String> {
        if self.missing_paths.borrow().contains(path) || path.is_empty() {
            return Err("No such file or directory (os error 2)".to_string());
        }
        Ok(normalize(path))
    }

    fn read_text_file(&self, path: &str) -> Option<String> {
        self.files.borrow().get(path).cloned()
    }

    fn path_exists(&self, _path: &str) -> bool {
        self.log.borrow_mut().push("path_exists".to_string());
        if let Some(next) = self
            .path_exists_sequence
            .borrow_mut()
            .as_mut()
            .and_then(VecDeque::pop_front)
        {
            return next;
        }
        self.path_exists
    }

    fn is_block_device(&self, _path: &str) -> Result<bool, DomainError> {
        self.log.borrow_mut().push("is_block_device".to_string());
        self.fail_if("is_block_device")?;
        Ok(self.is_block_device)
    }

    fn device_capacity(&self, path: &str) -> Result<u64, DomainError> {
        self.log.borrow_mut().push("device_capacity".to_string());
        self.fail_if("device_capacity")?;
        if Path::new(path).starts_with("/dev/mapper") {
            Ok(self.mapper_capacity.unwrap_or(self.device_capacity))
        } else {
            Ok(self.device_capacity)
        }
    }

    fn is_regular_file(&self, path: &str) -> Result<bool, DomainError> {
        Ok(!self.irregular_paths.borrow().contains(path))
    }

    fn file_len(&self, path: &str) -> Result<u64, DomainError> {
        match self.file_lens.borrow().get(path) {
            Some(len) => Ok(*len),
            None => Err(DomainError::AdapterFailure(format!(
                "failed to stat {path}: No such file or directory (os error 2)"
            ))),
        }
    }

    fn set_backing_file_size(&self, _path: &str, _size: u64) -> Result<(), DomainError> {
        self.log.borrow_mut().push("set_backing_file_size".to_string());
        self.fail_if("set_backing_file_size")
    }

    fn mkfs(&self, _mapper: &MapperHandle, _fs: Filesystem) -> Result<(), DomainError> {
        self.log.borrow_mut().push("mkfs".to_string());
        self.fail_if("mkfs")
    }

    fn growfs(&self, _mapper: &MapperHandle, fs: Filesystem) -> Result<(), DomainError> {
        self.log.borrow_mut().push("growfs".to_string());
        *self.last_growfs_filesystem.borrow_mut() = Some(fs);
        self.fail_if("growfs")
    }

    fn filesystem_size(&self, _mapper: &MapperHandle, _fs: Filesystem) -> Result<u64, DomainError> {
        self.log.borrow_mut().push("filesystem_size".to_string());
        self.fail_if("filesystem_size")?;
        Ok(self.filesystem_size.unwrap_or(self.device_capacity))
    }

    fn remove_backing_file(&self, _path: &str) -> Result<(), DomainError> {
        self.log.borrow_mut().push("remove_backing_file".to_string());
        Ok(())
    }

    fn mount(&self, mapper: &MapperHandle, read_only: bool) -> Result<String, DomainError> {
        self.log.borrow_mut().push("mount".to_string());
        *self.last_mount_read_only.borrow_mut() = Some(read_only);
        self.fail_if("mount")?;
        Ok(format!("/tmp/fake-mount-{}", mapper.name))
    }

    fn umount(&self, mapper: &MapperHandle) -> Result<(), DomainError> {
        self.log.borrow_mut().push("umount".to_string());
        *self.last_umount.borrow_mut() = Some(mapper.clone());
        if self.umount_fail_times.get() > 0 {
            self.umount_fail_times.set(self.umount_fail_times.get() - 1);
            return Err(DomainError::AdapterFailure(format!(
                "{} is busy (test)",
                mapper.name
            )));
        }
        if self.umount_not_currently_mounted {
            return Err(DomainError::AdapterFailure(format!(
                "{} is not currently mounted",
                mapper.name
            )));
        }
        if self.umount_failure_for.borrow().contains(&mapper.name) {
            return Err(DomainError::AdapterFailure(format!(
                "umount failed (test) for {}",
                mapper.name
            )));
        }
        self.fail_if("umount")
    }

    fn bind_mount(&self, _source: &str, _dest: &str) -> Result<(), DomainError> {
        self.log.borrow_mut().push("bind_mount".to_string());
        if self.bind_mount_failure {
            return Err(DomainError::AdapterFailure(
                "bind_mount failed (test)".to_string(),
            ));
        }
        self.fail_if("bind_mount")
    }

    fn hook_file_metadata(&self, _path: &str) -> Result<HookFileMeta, DomainError> {
        self.log.borrow_mut().push("hook_file_metadata".to_string());
        self.fail_if("hook_file_metadata")?;
        Ok(self.hook_file_metadata.get())
    }

    fn run_hook(&self, path: &str, args: &[String]) -> Result<Option<i32>, DomainError> {
        self.log.borrow_mut().push("run_hook".to_string());
        *self.last_run_hook.borrow_mut() = Some((PathBuf::from(path), args.to_vec()));
        self.fail_if("run_hook")?;
        Ok(self.run_hook_exit_code.get())
    }

    fn invoking_home_dir(&self) -> Result<String, DomainError> {
        self.log.borrow_mut().push("invoking_home_dir".to_string());
        self.fail_if("invoking_home_dir")?;
        Ok(text(&self.invoking_home_dir).to_string())
    }

    fn mount_point_of(&self, mapper: &MapperHandle) -> Result<String, DomainError> {
        self.log.borrow_mut().push("mount_point_of".to_string());
        self.fail_if("mount_point_of")?;
        Ok(self
            .mount_point_of
            .borrow()
            .clone()
            .map(|p| text(&p).to_string())
            .unwrap_or_else(|| format!("/tmp/fake-mount-{}", mapper.name)))
    }

    fn unmount_bind_hook_destination(&self, _dest: &str) -> Result<(), DomainError> {
        self.log.borrow_mut().push("unmount_bind_hook_destination".to_string());
        self.fail_if("unmount_bind_hook_destination")
    }

    fn processes_using(&self, _mountpoint: &str) -> Result<Vec<Pid>, DomainError> {
        self.log.borrow_mut().push("processes_using".to_string());
        self.fail_if("processes_using")?;
        Ok(self.processes_using_result.borrow().clone())
    }

    fn signal_process(&self, pid: Pid, signal: Signal) -> Result<(), DomainError> {
        self.log.borrow_mut().push("signal_process".to_string());
        self.last_signal_calls.borrow_mut().push((pid, signal));
        self.fail_if("signal_process")
    }

    fn escalation_pause(&self) {}

    fn scaffold_hook_templates(&self, mountpoint: &str) -> Result<(), DomainError> {
        self.log.borrow_mut().push("scaffold_hook_templates".to_string());
        *self.last_scaffold_hook_templates_mountpoint.borrow_mut() = Some(mountpoint.to_string());
        self.fail_if("scaffold_hook_templates")
    }
}

/// A uniquely named volume path (the doubles keep no files; a backing
/// file's length is set on the filesystem double where a test needs one).
struct RealFixtureFile(String);

impl RealFixtureFile {
    fn create(unique_name: &str) -> Self {
        Self(format!("/tmp/hypogaol-unit-test-{unique_name}"))
    }
}

/// A directory standing in for a mount point or `$HOME`.
struct RealFixtureDir(PathBuf);

impl RealFixtureDir {
    fn create(path: PathBuf) -> Self {
        Self(path)
    }

    fn named(unique_name: &str) -> Self {
        Self::create(PathBuf::from(format!("/tmp/hypogaol-unit-test-{unique_name}")))
    }

    fn subdir(&self, name: &str) -> PathBuf {
        self.0.join(name)
    }

    fn text(&self) -> &str {
        text(&self.0)
    }
}

/// The mount point `FakeFilesystemBackend::mount` reports for `name`.
fn fake_mountpoint_for(name: &str) -> PathBuf {
    PathBuf::from(format!("/tmp/fake-mount-{name}"))
}

fn mapper(name: &str, source_path: &str) -> MapperHandle {
    MapperHandle {
        name: name.to_string(),
        source_path: source_path.to_string(),
    }
}

fn passing_meta() -> HookFileMeta {
    passing_hook_file_meta()
}

// ---- preflight
#[test]
fn all_ports_passing_returns_ok() {
    let luks = FakeLuksBackend::passing();
    let fido2 = FakeFido2Backend::passing();
    let fs = FakeFilesystemBackend::passing();

    assert!(preflight::check(&mut Ports::new(&luks, &fido2, &fs), None).is_ok());
}

#[test]
fn one_missing_dependency_is_named_in_the_error() {
    let luks = FakeLuksBackend::failing(&["cryptsetup"]);
    let fido2 = FakeFido2Backend::passing();
    let fs = FakeFilesystemBackend::passing();

    let err = preflight::check(&mut Ports::new(&luks, &fido2, &fs), None).unwrap_err();
    let DomainError::PreflightFailed(missing) = err else {
        panic!("expected DomainError::PreflightFailed, got {err:?}");
    };

    assert_eq!(missing, vec!["cryptsetup".to_string()]);
}

#[test]
fn failures_from_every_port_are_aggregated_not_short_circuited() {
    let luks = FakeLuksBackend::failing(&["cryptsetup"]);
    let fido2 = FakeFido2Backend::failing(&["fido2-token"]);
    let fs = FakeFilesystemBackend::failing(&["mkfs.ext4"]);

    let err = preflight::check(&mut Ports::new(&luks, &fido2, &fs), None).unwrap_err();
    let DomainError::PreflightFailed(missing) = err else {
        panic!("expected DomainError::PreflightFailed, got {err:?}");
    };

    assert_eq!(
        missing,
        vec![
            "cryptsetup".to_string(),
            "fido2-token".to_string(),
            "mkfs.ext4".to_string(),
        ]
    );
}

// ---- keyslot guard
#[test]
fn aborts_when_only_one_valid_keyslot_remains() {
    let log = new_call_log();
    let luks = FakeLuksBackend::passing()
        .with_log(log.clone())
        .with_keyslots(vec![KeyslotInfo {
            keyslot: KeyslotRef(0),
            key_label: "primary".to_string(),
        }]);

    let result = remove_keyslot_guarded(&mut Ports::new(&luks, &FakeFido2Backend::passing(), &FakeFilesystemBackend::passing()), "/tmp/volume", KeyslotRef(0));

    assert!(matches!(result, Err(DomainError::LastKeyslotGuard)));
    // The count check ran, but remove_key must never have been called.
    assert_eq!(*log.borrow(), vec!["list_fido2_keyslots".to_string()]);
}

#[test]
fn proceeds_when_more_than_one_valid_keyslot_remains() {
    let log = new_call_log();
    let luks = FakeLuksBackend::passing()
        .with_log(log.clone())
        .with_keyslots(vec![
            KeyslotInfo {
                keyslot: KeyslotRef(0),
                key_label: "primary".to_string(),
            },
            KeyslotInfo {
                keyslot: KeyslotRef(1),
                key_label: "backup".to_string(),
            },
        ]);

    let result = remove_keyslot_guarded(&mut Ports::new(&luks, &FakeFido2Backend::passing(), &FakeFilesystemBackend::passing()), "/tmp/volume", KeyslotRef(0));

    assert!(result.is_ok());
    assert_eq!(
        *log.borrow(),
        vec!["list_fido2_keyslots".to_string(), "remove_key".to_string()]
    );
}

#[test]
fn proceeds_when_target_is_not_itself_a_valid_keyslot_even_if_only_one_valid_keyslot_exists() {
    let log = new_call_log();
    let luks = FakeLuksBackend::passing()
        .with_log(log.clone())
        .with_keyslots(vec![KeyslotInfo {
            keyslot: KeyslotRef(1),
            key_label: "primary".to_string(),
        }]);

    // Target is keyslot 0 (the transient one) — absent from the valid list.
    let result = remove_keyslot_guarded(&mut Ports::new(&luks, &FakeFido2Backend::passing(), &FakeFilesystemBackend::passing()), "/tmp/volume", KeyslotRef(0));

    assert!(result.is_ok(), "expected Ok(()), got {result:?}");
    assert_eq!(
        *log.borrow(),
        vec!["list_fido2_keyslots".to_string(), "remove_key".to_string()]
    );
}

// ---- create
#[test]
fn refuses_before_touching_anything_if_destination_already_exists() {
    let log = new_call_log();
    let luks = FakeLuksBackend::passing().with_log(log.clone());
    let fido2 = FakeFido2Backend::passing();
    let fs = FakeFilesystemBackend::passing()
        .with_path_exists(true)
        .with_log(log.clone());

    let target = CreateTarget::File {
        path: String::from("/tmp/already-there"),
        size: MIN_VOLUME_SIZE_BYTES,
    };

    let result = create::run(
        target,
        Filesystem::Ext4,
        false,
        None,
        None,
        false,
        Fido2DeviceSelection::Interactive,
        &no_progress,
        &mut Ports::new(&luks, &fido2, &fs),
    );

    match result {
        Err(DomainError::DestinationExists(path)) => {
            assert_eq!(path, String::from("/tmp/already-there"));
        }
        other => panic!("expected DomainError::DestinationExists, got {other:?}"),
    }

    assert_eq!(
        *log.borrow(),
        vec![
            "check_prerequisites".to_string(),
            "path_exists".to_string(),
            "has_marker_token".to_string()
        ]
    );
}

#[test]
fn file_backed_resume_proceeds_through_the_full_happy_path_with_no_confirmation_involved() {
    let log = new_call_log();
    let luks = FakeLuksBackend::passing()
        .with_log(log.clone())
        .with_has_marker_token(true);
    let fido2 = FakeFido2Backend::passing().with_log(log.clone());
    let fs = FakeFilesystemBackend::passing()
        .with_path_exists(true)
        .with_log(log.clone());

    let fixture = RealFixtureFile::create("create-file-resume-happy-path");
    let target = CreateTarget::File {
        path: fixture.0.clone(),
        size: MIN_VOLUME_SIZE_BYTES,
    };

    let result = create::run(
        target,
        Filesystem::Ext4,
        false,
        None,
        None,
        false,
        Fido2DeviceSelection::Interactive,
        &no_progress,
        &mut Ports::new(&luks, &fido2, &fs),
    );

    assert!(result.is_ok(), "expected Ok(()), got {result:?}");

    assert_eq!(
        *log.borrow(),
        vec![
            "check_prerequisites".to_string(),
            "path_exists".to_string(),
            "has_marker_token".to_string(),
            "set_backing_file_size".to_string(),
            "close_stale_mapping".to_string(),
            "bootstrap_format_and_open".to_string(),
            "enroll_fido2_key".to_string(),
            "mkfs".to_string(),
            "remove_marker_token".to_string(),
            "list_fido2_keyslots".to_string(),
            "remove_key".to_string(),
            "close".to_string(),
        ]
    );
}

#[test]
fn refuses_a_file_backed_size_below_the_minimum_before_touching_any_port() {
    let log = new_call_log();
    let luks = FakeLuksBackend::passing().with_log(log.clone());
    let fido2 = FakeFido2Backend::passing().with_log(log.clone());
    let fs = FakeFilesystemBackend::passing().with_log(log.clone());

    let target = CreateTarget::File {
        path: String::from("/tmp/way-too-small"),
        size: MIN_VOLUME_SIZE_BYTES - 1,
    };

    let result = create::run(
        target,
        Filesystem::Ext4,
        false,
        None,
        None,
        false,
        Fido2DeviceSelection::Interactive,
        &no_progress,
        &mut Ports::new(&luks, &fido2, &fs),
    );

    match result {
        Err(DomainError::DeviceTooSmall { path, size }) => {
            assert_eq!(path, String::from("/tmp/way-too-small"));
            assert_eq!(size, MIN_VOLUME_SIZE_BYTES - 1);
        }
        other => panic!("expected DomainError::DeviceTooSmall, got {other:?}"),
    }

    // The CLI's own `parse_size` already floor-checks this, but domain must
    // not rely on it as the only gate (mirroring the Device branch) — no
    // backing file allocated, no adapter touched.
    assert_eq!(
        *log.borrow(),
        vec!["check_prerequisites".to_string(), "path_exists".to_string()]
    );
}

#[test]
fn happy_path_runs_every_port_call_once_in_order() {
    let log = new_call_log();
    let luks = FakeLuksBackend::passing().with_log(log.clone());
    let fido2 = FakeFido2Backend::passing().with_log(log.clone());
    let fs = FakeFilesystemBackend::passing().with_log(log.clone());

    let fixture = RealFixtureFile::create("create-happy-path");
    let target = CreateTarget::File {
        path: fixture.0.clone(),
        size: MIN_VOLUME_SIZE_BYTES,
    };

    let result = create::run(
        target,
        Filesystem::Ext4,
        false,
        None,
        None,
        false,
        Fido2DeviceSelection::Interactive,
        &no_progress,
        &mut Ports::new(&luks, &fido2, &fs),
    );

    assert!(result.is_ok(), "expected Ok(()), got {result:?}");

    assert_eq!(
        *log.borrow(),
        vec![
            "check_prerequisites".to_string(),
            "path_exists".to_string(),
            "set_backing_file_size".to_string(),
            "close_stale_mapping".to_string(),
            "bootstrap_format_and_open".to_string(),
            "enroll_fido2_key".to_string(),
            "mkfs".to_string(),
            "remove_marker_token".to_string(),
            "list_fido2_keyslots".to_string(),
            "remove_key".to_string(),
            "close".to_string(),
        ]
    );
}

#[test]
fn create_with_user_verification_true_threads_it_to_bootstrap_enrollment() {
    let luks = FakeLuksBackend::passing();
    let fido2 = FakeFido2Backend::passing();
    let fs = FakeFilesystemBackend::passing();

    let fixture = RealFixtureFile::create("create-user-verification-true");
    let target = CreateTarget::File {
        path: fixture.0.clone(),
        size: MIN_VOLUME_SIZE_BYTES,
    };

    let result = create::run(
        target,
        Filesystem::Ext4,
        true,
        None,
        None,
        false,
        Fido2DeviceSelection::Interactive,
        &no_progress,
        &mut Ports::new(&luks, &fido2, &fs),
    );

    assert!(result.is_ok(), "expected Ok(()), got {result:?}");
    assert_eq!(fido2.user_verification_received(), Some(true));
}

#[test]
fn create_device_with_user_verification_true_threads_it_to_bootstrap_enrollment() {
    let luks = FakeLuksBackend::passing();
    let fido2 = FakeFido2Backend::passing();
    let fs = FakeFilesystemBackend::passing().with_device_capacity(MIN_VOLUME_SIZE_BYTES * 2);

    let fixture = RealFixtureFile::create("create-device-user-verification-true");
    let target = CreateTarget::Device {
        path: fixture.0.clone(),
        size: None,
        confirmed: true,
    };

    let result = create::run(
        target,
        Filesystem::Ext4,
        true,
        None,
        None,
        false,
        Fido2DeviceSelection::Interactive,
        &no_progress,
        &mut Ports::new(&luks, &fido2, &fs),
    );

    assert!(result.is_ok(), "expected Ok(()), got {result:?}");
    assert_eq!(fido2.user_verification_received(), Some(true));
}

#[test]
fn create_with_label_threads_it_into_the_enrolled_key_metadata() {
    let luks = FakeLuksBackend::passing();
    let fido2 = FakeFido2Backend::passing();
    let fs = FakeFilesystemBackend::passing();

    let fixture = RealFixtureFile::create("create-with-label");
    let target = CreateTarget::File {
        path: fixture.0.clone(),
        size: MIN_VOLUME_SIZE_BYTES,
    };

    let result = create::run(
        target,
        Filesystem::Ext4,
        false,
        None,
        Some("backup".to_string()),
        false,
        Fido2DeviceSelection::Interactive,
        &no_progress,
        &mut Ports::new(&luks, &fido2, &fs),
    );

    assert!(result.is_ok(), "expected Ok(()), got {result:?}");
    assert_eq!(fido2.key_label_received(), Some("backup".to_string()));
}

#[test]
fn create_without_label_falls_back_to_the_default_label() {
    let luks = FakeLuksBackend::passing();
    let fido2 = FakeFido2Backend::passing();
    let fs = FakeFilesystemBackend::passing();

    let fixture = RealFixtureFile::create("create-without-label");
    let target = CreateTarget::File {
        path: fixture.0.clone(),
        size: MIN_VOLUME_SIZE_BYTES,
    };

    let result = create::run(
        target,
        Filesystem::Ext4,
        false,
        None,
        None,
        false,
        Fido2DeviceSelection::Interactive,
        &no_progress,
        &mut Ports::new(&luks, &fido2, &fs),
    );

    assert!(result.is_ok(), "expected Ok(()), got {result:?}");
    assert_eq!(fido2.key_label_received(), Some("primary".to_string()));
}

#[test]
fn create_device_with_label_threads_it_into_the_enrolled_key_metadata() {
    let luks = FakeLuksBackend::passing();
    let fido2 = FakeFido2Backend::passing();
    let fs = FakeFilesystemBackend::passing().with_device_capacity(MIN_VOLUME_SIZE_BYTES * 2);

    let fixture = RealFixtureFile::create("create-device-with-label");
    let target = CreateTarget::Device {
        path: fixture.0.clone(),
        size: None,
        confirmed: true,
    };

    let result = create::run(
        target,
        Filesystem::Ext4,
        false,
        None,
        Some("backup".to_string()),
        false,
        Fido2DeviceSelection::Interactive,
        &no_progress,
        &mut Ports::new(&luks, &fido2, &fs),
    );

    assert!(result.is_ok(), "expected Ok(()), got {result:?}");
    assert_eq!(fido2.key_label_received(), Some("backup".to_string()));
}

#[test]
fn create_device_without_label_falls_back_to_the_default_label() {
    let luks = FakeLuksBackend::passing();
    let fido2 = FakeFido2Backend::passing();
    let fs = FakeFilesystemBackend::passing().with_device_capacity(MIN_VOLUME_SIZE_BYTES * 2);

    let fixture = RealFixtureFile::create("create-device-without-label");
    let target = CreateTarget::Device {
        path: fixture.0.clone(),
        size: None,
        confirmed: true,
    };

    let result = create::run(
        target,
        Filesystem::Ext4,
        false,
        None,
        None,
        false,
        Fido2DeviceSelection::Interactive,
        &no_progress,
        &mut Ports::new(&luks, &fido2, &fs),
    );

    assert!(result.is_ok(), "expected Ok(()), got {result:?}");
    assert_eq!(fido2.key_label_received(), Some("primary".to_string()));
}

#[test]
fn create_with_an_unusual_label_threads_it_through_unmodified() {
    let luks = FakeLuksBackend::passing();
    let fido2 = FakeFido2Backend::passing();
    let fs = FakeFilesystemBackend::passing();

    let fixture = RealFixtureFile::create("create-with-unusual-label");
    let target = CreateTarget::File {
        path: fixture.0.clone(),
        size: MIN_VOLUME_SIZE_BYTES,
    };
    let label = "Renée's café key #2 🔑".to_string();

    let result = create::run(
        target,
        Filesystem::Ext4,
        false,
        None,
        Some(label.clone()),
        false,
        Fido2DeviceSelection::Interactive,
        &no_progress,
        &mut Ports::new(&luks, &fido2, &fs),
    );

    assert!(result.is_ok(), "expected Ok(()), got {result:?}");
    assert_eq!(fido2.key_label_received(), Some(label));
}

#[test]
fn enroll_failure_closes_the_mapping_and_removes_the_backing_file() {
    let log = new_call_log();
    let luks = FakeLuksBackend::passing().with_log(log.clone());
    let fido2 = FakeFido2Backend::passing()
        .with_log(log.clone())
        .with_failure_at("enroll_fido2_key");
    let fs = FakeFilesystemBackend::passing().with_log(log.clone());

    let fixture = RealFixtureFile::create("create-enroll-failure");
    let target = CreateTarget::File {
        path: fixture.0.clone(),
        size: MIN_VOLUME_SIZE_BYTES,
    };

    let result = create::run(
        target,
        Filesystem::Ext4,
        false,
        None,
        None,
        false,
        Fido2DeviceSelection::Interactive,
        &no_progress,
        &mut Ports::new(&luks, &fido2, &fs),
    );

    assert!(result.is_err(), "expected Err, got {result:?}");

    // The mapping opened by bootstrap_format_and_open must still be closed,
    // and the backing file allocated by set_backing_file_size must still be
    // removed, even though enrollment is what actually failed — otherwise a
    // failed create leaks an open mapping and permanently blocks retrying at
    // the same destination (DestinationExists forever).
    assert_eq!(
        *log.borrow(),
        vec![
            "check_prerequisites".to_string(),
            "path_exists".to_string(),
            "set_backing_file_size".to_string(),
            "close_stale_mapping".to_string(),
            "bootstrap_format_and_open".to_string(),
            "enroll_fido2_key".to_string(),
            "close".to_string(),
            "remove_backing_file".to_string(),
        ]
    );
}

#[test]
fn mkfs_failure_closes_the_mapping_and_removes_the_backing_file() {
    let log = new_call_log();
    let luks = FakeLuksBackend::passing().with_log(log.clone());
    let fido2 = FakeFido2Backend::passing().with_log(log.clone());
    let fs = FakeFilesystemBackend::passing()
        .with_log(log.clone())
        .with_failure_at("mkfs");

    let fixture = RealFixtureFile::create("create-mkfs-failure");
    let target = CreateTarget::File {
        path: fixture.0.clone(),
        size: MIN_VOLUME_SIZE_BYTES,
    };

    let result = create::run(
        target,
        Filesystem::Ext4,
        false,
        None,
        None,
        false,
        Fido2DeviceSelection::Interactive,
        &no_progress,
        &mut Ports::new(&luks, &fido2, &fs),
    );

    assert!(result.is_err(), "expected Err, got {result:?}");
    assert_eq!(
        *log.borrow(),
        vec![
            "check_prerequisites".to_string(),
            "path_exists".to_string(),
            "set_backing_file_size".to_string(),
            "close_stale_mapping".to_string(),
            "bootstrap_format_and_open".to_string(),
            "enroll_fido2_key".to_string(),
            "mkfs".to_string(),
            "close".to_string(),
            "remove_backing_file".to_string(),
        ]
    );
}

#[test]
fn bootstrap_format_and_open_failure_removes_the_backing_file_without_closing_a_mapping() {
    let log = new_call_log();
    let luks = FakeLuksBackend::passing()
        .with_log(log.clone())
        .with_failure_at("bootstrap_format_and_open");
    let fido2 = FakeFido2Backend::passing().with_log(log.clone());
    let fs = FakeFilesystemBackend::passing().with_log(log.clone());

    let fixture = RealFixtureFile::create("create-bootstrap-failure");
    let target = CreateTarget::File {
        path: fixture.0.clone(),
        size: MIN_VOLUME_SIZE_BYTES,
    };

    let result = create::run(
        target,
        Filesystem::Ext4,
        false,
        None,
        None,
        false,
        Fido2DeviceSelection::Interactive,
        &no_progress,
        &mut Ports::new(&luks, &fido2, &fs),
    );

    assert!(result.is_err(), "expected Err, got {result:?}");

    // No mapping was ever opened, so there is nothing to close — but the
    // backing file `set_backing_file_size` already allocated must still be
    // removed.
    assert_eq!(
        *log.borrow(),
        vec![
            "check_prerequisites".to_string(),
            "path_exists".to_string(),
            "set_backing_file_size".to_string(),
            "close_stale_mapping".to_string(),
            "bootstrap_format_and_open".to_string(),
            "remove_backing_file".to_string(),
        ]
    );
}

#[test]
fn close_stale_mapping_failure_aborts_before_bootstrap_format_and_open_ever_runs() {
    let log = new_call_log();
    let luks = FakeLuksBackend::passing()
        .with_log(log.clone())
        .with_failure_at("close_stale_mapping");
    let fido2 = FakeFido2Backend::passing().with_log(log.clone());
    let fs = FakeFilesystemBackend::passing().with_log(log.clone());

    let fixture = RealFixtureFile::create("create-close-stale-mapping-failure");
    let target = CreateTarget::File {
        path: fixture.0.clone(),
        size: MIN_VOLUME_SIZE_BYTES,
    };

    let result = create::run(
        target,
        Filesystem::Ext4,
        false,
        None,
        None,
        false,
        Fido2DeviceSelection::Interactive,
        &no_progress,
        &mut Ports::new(&luks, &fido2, &fs),
    );

    assert!(result.is_err(), "expected Err, got {result:?}");
    // bootstrap_format_and_open never runs — matches the existing
    // File-branch convention that any bootstrap_and_provision error after
    // set_backing_file_size triggers remove_backing_file, same as the
    // bootstrap_format_and_open-itself-fails case above.
    assert_eq!(
        *log.borrow(),
        vec![
            "check_prerequisites".to_string(),
            "path_exists".to_string(),
            "set_backing_file_size".to_string(),
            "close_stale_mapping".to_string(),
            "remove_backing_file".to_string(),
        ]
    );
}

#[test]
fn device_happy_path_with_no_size_given_uses_the_full_capacity() {
    let log = new_call_log();
    let luks = FakeLuksBackend::passing().with_log(log.clone());
    let fido2 = FakeFido2Backend::passing().with_log(log.clone());
    let fs = FakeFilesystemBackend::passing()
        .with_log(log.clone())
        .with_device_capacity(MIN_VOLUME_SIZE_BYTES * 2);

    let fixture = RealFixtureFile::create("create-device-happy-path-no-size");
    let target = CreateTarget::Device {
        path: fixture.0.clone(),
        size: None,
        confirmed: true,
    };

    let result = create::run(
        target,
        Filesystem::Ext4,
        false,
        None,
        None,
        false,
        Fido2DeviceSelection::Interactive,
        &no_progress,
        &mut Ports::new(&luks, &fido2, &fs),
    );

    assert!(result.is_ok(), "expected Ok(()), got {result:?}");
    assert_eq!(luks.last_bootstrap_size(), Some(MIN_VOLUME_SIZE_BYTES * 2));
    assert_eq!(
        *log.borrow(),
        vec![
            "check_prerequisites".to_string(),
            "has_luks2_header".to_string(),
            "device_capacity".to_string(),
            "close_stale_mapping".to_string(),
            "bootstrap_format_and_open".to_string(),
            "enroll_fido2_key".to_string(),
            "mkfs".to_string(),
            "remove_marker_token".to_string(),
            "list_fido2_keyslots".to_string(),
            "remove_key".to_string(),
            "close".to_string(),
        ]
    );
}

#[test]
fn device_happy_path_with_a_size_smaller_than_capacity_uses_the_requested_size() {
    let log = new_call_log();
    let luks = FakeLuksBackend::passing().with_log(log.clone());
    let fido2 = FakeFido2Backend::passing().with_log(log.clone());
    let fs = FakeFilesystemBackend::passing()
        .with_log(log.clone())
        .with_device_capacity(MIN_VOLUME_SIZE_BYTES * 2);

    let fixture = RealFixtureFile::create("create-device-happy-path-smaller-size");
    let target = CreateTarget::Device {
        path: fixture.0.clone(),
        size: Some(MIN_VOLUME_SIZE_BYTES),
        confirmed: true,
    };

    let result = create::run(
        target,
        Filesystem::Ext4,
        false,
        None,
        None,
        false,
        Fido2DeviceSelection::Interactive,
        &no_progress,
        &mut Ports::new(&luks, &fido2, &fs),
    );

    assert!(result.is_ok(), "expected Ok(()), got {result:?}");
    assert_eq!(luks.last_bootstrap_size(), Some(MIN_VOLUME_SIZE_BYTES));
    assert_eq!(
        *log.borrow(),
        vec![
            "check_prerequisites".to_string(),
            "has_luks2_header".to_string(),
            "device_capacity".to_string(),
            "close_stale_mapping".to_string(),
            "bootstrap_format_and_open".to_string(),
            "enroll_fido2_key".to_string(),
            "mkfs".to_string(),
            "remove_marker_token".to_string(),
            "list_fido2_keyslots".to_string(),
            "remove_key".to_string(),
            "close".to_string(),
        ]
    );
}

#[test]
fn device_with_no_size_given_and_capacity_below_the_minimum_refuses_before_any_mutating_call() {
    let log = new_call_log();
    let luks = FakeLuksBackend::passing().with_log(log.clone());
    let fido2 = FakeFido2Backend::passing();
    let fs = FakeFilesystemBackend::passing()
        .with_log(log.clone())
        .with_device_capacity(MIN_VOLUME_SIZE_BYTES - 1);

    let fixture = RealFixtureFile::create("create-device-capacity-below-minimum");
    let target = CreateTarget::Device {
        path: fixture.0.clone(),
        size: None,
        confirmed: true,
    };

    let result = create::run(
        target,
        Filesystem::Ext4,
        false,
        None,
        None,
        false,
        Fido2DeviceSelection::Interactive,
        &no_progress,
        &mut Ports::new(&luks, &fido2, &fs),
    );

    match result {
        Err(DomainError::DeviceTooSmall { path, size }) => {
            assert_eq!(path, fixture.0);
            assert_eq!(size, MIN_VOLUME_SIZE_BYTES - 1);
        }
        other => panic!("expected DomainError::DeviceTooSmall, got {other:?}"),
    }

    assert_eq!(
        *log.borrow(),
        vec![
            "check_prerequisites".to_string(),
            "has_luks2_header".to_string(),
            "device_capacity".to_string()
        ]
    );
}

#[test]
fn device_with_existing_luks2_header_refuses_even_when_confirmed() {
    let log = new_call_log();
    let luks = FakeLuksBackend::passing()
        .with_log(log.clone())
        .with_has_luks2_header(true);
    let fido2 = FakeFido2Backend::passing();
    let fs = FakeFilesystemBackend::passing().with_log(log.clone());

    let fixture = RealFixtureFile::create("create-device-already-formatted");
    let target = CreateTarget::Device {
        path: fixture.0.clone(),
        size: None,
        confirmed: true,
    };

    let result = create::run(
        target,
        Filesystem::Ext4,
        false,
        None,
        None,
        false,
        Fido2DeviceSelection::Interactive,
        &no_progress,
        &mut Ports::new(&luks, &fido2, &fs),
    );

    match result {
        Err(DomainError::DeviceAlreadyFormatted(path)) => {
            assert_eq!(path, fixture.0);
        }
        other => panic!("expected DomainError::DeviceAlreadyFormatted, got {other:?}"),
    }

    assert_eq!(
        *log.borrow(),
        vec![
            "check_prerequisites".to_string(),
            "has_luks2_header".to_string(),
            "has_marker_token".to_string()
        ]
    );
}

#[test]
fn device_backed_resume_proceeds_even_when_not_confirmed() {
    let log = new_call_log();
    let luks = FakeLuksBackend::passing()
        .with_log(log.clone())
        .with_has_luks2_header(true)
        .with_has_marker_token(true);
    let fido2 = FakeFido2Backend::passing().with_log(log.clone());
    let fs = FakeFilesystemBackend::passing()
        .with_log(log.clone())
        .with_device_capacity(MIN_VOLUME_SIZE_BYTES * 2);

    let fixture = RealFixtureFile::create("create-device-resume-not-confirmed");
    let target = CreateTarget::Device {
        path: fixture.0.clone(),
        size: None,
        confirmed: false,
    };

    let result = create::run(
        target,
        Filesystem::Ext4,
        false,
        None,
        None,
        false,
        Fido2DeviceSelection::Interactive,
        &no_progress,
        &mut Ports::new(&luks, &fido2, &fs),
    );

    assert!(result.is_ok(), "expected Ok(()), got {result:?}");

    assert_eq!(
        *log.borrow(),
        vec![
            "check_prerequisites".to_string(),
            "has_luks2_header".to_string(),
            "has_marker_token".to_string(),
            "device_capacity".to_string(),
            "close_stale_mapping".to_string(),
            "bootstrap_format_and_open".to_string(),
            "enroll_fido2_key".to_string(),
            "mkfs".to_string(),
            "remove_marker_token".to_string(),
            "list_fido2_keyslots".to_string(),
            "remove_key".to_string(),
            "close".to_string(),
        ]
    );
}

#[test]
fn device_backed_resume_still_enforces_size_against_capacity() {
    let log = new_call_log();
    let luks = FakeLuksBackend::passing()
        .with_log(log.clone())
        .with_has_luks2_header(true)
        .with_has_marker_token(true);
    let fido2 = FakeFido2Backend::passing();
    let fs = FakeFilesystemBackend::passing()
        .with_log(log.clone())
        .with_device_capacity(1024);

    let fixture = RealFixtureFile::create("create-device-resume-size-exceeds-capacity");
    let target = CreateTarget::Device {
        path: fixture.0.clone(),
        size: Some(2048),
        confirmed: false,
    };

    let result = create::run(
        target,
        Filesystem::Ext4,
        false,
        None,
        None,
        false,
        Fido2DeviceSelection::Interactive,
        &no_progress,
        &mut Ports::new(&luks, &fido2, &fs),
    );

    match result {
        Err(DomainError::DeviceSizeExceedsCapacity {
            path,
            requested,
            capacity,
        }) => {
            assert_eq!(path, fixture.0);
            assert_eq!(requested, 2048);
            assert_eq!(capacity, 1024);
        }
        other => panic!("expected DomainError::DeviceSizeExceedsCapacity, got {other:?}"),
    }

    assert_eq!(
        *log.borrow(),
        vec![
            "check_prerequisites".to_string(),
            "has_luks2_header".to_string(),
            "has_marker_token".to_string(),
            "device_capacity".to_string()
        ]
    );
}

#[test]
fn device_without_confirmation_refuses_even_with_no_header() {
    let log = new_call_log();
    let luks = FakeLuksBackend::passing()
        .with_log(log.clone())
        .with_has_luks2_header(false);
    let fido2 = FakeFido2Backend::passing();
    let fs = FakeFilesystemBackend::passing().with_log(log.clone());

    let fixture = RealFixtureFile::create("create-device-not-confirmed");
    let target = CreateTarget::Device {
        path: fixture.0.clone(),
        size: None,
        confirmed: false,
    };

    let result = create::run(
        target,
        Filesystem::Ext4,
        false,
        None,
        None,
        false,
        Fido2DeviceSelection::Interactive,
        &no_progress,
        &mut Ports::new(&luks, &fido2, &fs),
    );

    match result {
        Err(DomainError::DeviceConfirmationRequired) => {}
        other => panic!("expected DomainError::DeviceConfirmationRequired, got {other:?}"),
    }

    assert_eq!(
        *log.borrow(),
        vec![
            "check_prerequisites".to_string(),
            "has_luks2_header".to_string()
        ]
    );
}

#[test]
fn device_with_requested_size_greater_than_capacity_refuses_before_any_mutating_call() {
    let log = new_call_log();
    let luks = FakeLuksBackend::passing().with_log(log.clone());
    let fido2 = FakeFido2Backend::passing();
    let fs = FakeFilesystemBackend::passing()
        .with_log(log.clone())
        .with_device_capacity(1024);

    let fixture = RealFixtureFile::create("create-device-size-exceeds-capacity");
    let target = CreateTarget::Device {
        path: fixture.0.clone(),
        size: Some(2048),
        confirmed: true,
    };

    let result = create::run(
        target,
        Filesystem::Ext4,
        false,
        None,
        None,
        false,
        Fido2DeviceSelection::Interactive,
        &no_progress,
        &mut Ports::new(&luks, &fido2, &fs),
    );

    match result {
        Err(DomainError::DeviceSizeExceedsCapacity {
            path,
            requested,
            capacity,
        }) => {
            assert_eq!(path, fixture.0);
            assert_eq!(requested, 2048);
            assert_eq!(capacity, 1024);
        }
        other => panic!("expected DomainError::DeviceSizeExceedsCapacity, got {other:?}"),
    }

    assert_eq!(
        *log.borrow(),
        vec![
            "check_prerequisites".to_string(),
            "has_luks2_header".to_string(),
            "device_capacity".to_string()
        ]
    );
}

#[test]
fn device_branch_failure_closes_the_mapping_without_removing_any_backing_file() {
    let log = new_call_log();
    let luks = FakeLuksBackend::passing().with_log(log.clone());
    let fido2 = FakeFido2Backend::passing()
        .with_log(log.clone())
        .with_failure_at("enroll_fido2_key");
    let fs = FakeFilesystemBackend::passing()
        .with_log(log.clone())
        .with_device_capacity(MIN_VOLUME_SIZE_BYTES);

    let fixture = RealFixtureFile::create("create-device-failure-path");
    let target = CreateTarget::Device {
        path: fixture.0.clone(),
        size: None,
        confirmed: true,
    };

    let result = create::run(
        target,
        Filesystem::Ext4,
        false,
        None,
        None,
        false,
        Fido2DeviceSelection::Interactive,
        &no_progress,
        &mut Ports::new(&luks, &fido2, &fs),
    );

    assert!(result.is_err(), "expected Err, got {result:?}");

    // The mapping must still be closed on failure, but — unlike the File
    // branch — remove_backing_file must never be called: there is no
    // backing file to remove for a device/partition target.
    assert_eq!(
        *log.borrow(),
        vec![
            "check_prerequisites".to_string(),
            "has_luks2_header".to_string(),
            "device_capacity".to_string(),
            "close_stale_mapping".to_string(),
            "bootstrap_format_and_open".to_string(),
            "enroll_fido2_key".to_string(),
            "close".to_string(),
        ]
    );
}

#[test]
fn create_with_scaffold_hooks_true_mounts_writes_templates_and_unmounts_after_mkfs() {
    let log = new_call_log();
    let luks = FakeLuksBackend::passing().with_log(log.clone());
    let fido2 = FakeFido2Backend::passing().with_log(log.clone());
    let fs = FakeFilesystemBackend::passing().with_log(log.clone());

    let fixture = RealFixtureFile::create("create-scaffold-hooks-true-file");
    let target = CreateTarget::File {
        path: fixture.0.clone(),
        size: MIN_VOLUME_SIZE_BYTES,
    };

    let result = create::run(
        target,
        Filesystem::Ext4,
        false,
        None,
        None,
        true,
        Fido2DeviceSelection::Interactive,
        &no_progress,
        &mut Ports::new(&luks, &fido2, &fs),
    );

    assert!(result.is_ok(), "expected Ok(()), got {result:?}");

    assert_eq!(
        *log.borrow(),
        vec![
            "check_prerequisites".to_string(),
            "path_exists".to_string(),
            "set_backing_file_size".to_string(),
            "close_stale_mapping".to_string(),
            "bootstrap_format_and_open".to_string(),
            "enroll_fido2_key".to_string(),
            "mkfs".to_string(),
            "mount".to_string(),
            "scaffold_hook_templates".to_string(),
            "umount".to_string(),
            "remove_marker_token".to_string(),
            "list_fido2_keyslots".to_string(),
            "remove_key".to_string(),
            "close".to_string(),
        ]
    );

    // The exact mountpoint `mount` returned is what gets threaded into
    // `scaffold_hook_templates` — not a stand-in.
    let expected_name = mapping_name::mapping_name(&mut Ports::new(&FakeLuksBackend::passing(), &FakeFido2Backend::passing(), &FakeFilesystemBackend::passing()), &fixture.0).unwrap();
    assert_eq!(
        fs.last_scaffold_hook_templates_mountpoint(),
        Some(String::from(format!("/tmp/fake-mount-{expected_name}")))
    );
}

#[test]
fn create_with_scaffold_hooks_false_never_mounts_for_scaffolding() {
    let log = new_call_log();
    let luks = FakeLuksBackend::passing().with_log(log.clone());
    let fido2 = FakeFido2Backend::passing().with_log(log.clone());
    let fs = FakeFilesystemBackend::passing().with_log(log.clone());

    let fixture = RealFixtureFile::create("create-scaffold-hooks-false-file");
    let target = CreateTarget::File {
        path: fixture.0.clone(),
        size: MIN_VOLUME_SIZE_BYTES,
    };

    let result = create::run(
        target,
        Filesystem::Ext4,
        false,
        None,
        None,
        false,
        Fido2DeviceSelection::Interactive,
        &no_progress,
        &mut Ports::new(&luks, &fido2, &fs),
    );

    assert!(result.is_ok(), "expected Ok(()), got {result:?}");
    assert_eq!(
        *log.borrow(),
        vec![
            "check_prerequisites".to_string(),
            "path_exists".to_string(),
            "set_backing_file_size".to_string(),
            "close_stale_mapping".to_string(),
            "bootstrap_format_and_open".to_string(),
            "enroll_fido2_key".to_string(),
            "mkfs".to_string(),
            "remove_marker_token".to_string(),
            "list_fido2_keyslots".to_string(),
            "remove_key".to_string(),
            "close".to_string(),
        ],
        "with scaffold_hooks false, the write path must never even be reached"
    );
    assert_eq!(fs.last_scaffold_hook_templates_mountpoint(), None);
}

#[test]
fn create_device_with_scaffold_hooks_true_mounts_writes_templates_and_unmounts_after_mkfs() {
    let log = new_call_log();
    let luks = FakeLuksBackend::passing().with_log(log.clone());
    let fido2 = FakeFido2Backend::passing().with_log(log.clone());
    let fs = FakeFilesystemBackend::passing()
        .with_log(log.clone())
        .with_device_capacity(MIN_VOLUME_SIZE_BYTES * 2);

    let fixture = RealFixtureFile::create("create-scaffold-hooks-true-device");
    let target = CreateTarget::Device {
        path: fixture.0.clone(),
        size: None,
        confirmed: true,
    };

    let result = create::run(
        target,
        Filesystem::Ext4,
        false,
        None,
        None,
        true,
        Fido2DeviceSelection::Interactive,
        &no_progress,
        &mut Ports::new(&luks, &fido2, &fs),
    );

    assert!(result.is_ok(), "expected Ok(()), got {result:?}");
    assert_eq!(
        *log.borrow(),
        vec![
            "check_prerequisites".to_string(),
            "has_luks2_header".to_string(),
            "device_capacity".to_string(),
            "close_stale_mapping".to_string(),
            "bootstrap_format_and_open".to_string(),
            "enroll_fido2_key".to_string(),
            "mkfs".to_string(),
            "mount".to_string(),
            "scaffold_hook_templates".to_string(),
            "umount".to_string(),
            "remove_marker_token".to_string(),
            "list_fido2_keyslots".to_string(),
            "remove_key".to_string(),
            "close".to_string(),
        ]
    );

    let expected_name = mapping_name::mapping_name(&mut Ports::new(&FakeLuksBackend::passing(), &FakeFido2Backend::passing(), &FakeFilesystemBackend::passing()), &fixture.0).unwrap();
    assert_eq!(
        fs.last_scaffold_hook_templates_mountpoint(),
        Some(String::from(format!("/tmp/fake-mount-{expected_name}")))
    );
}

#[test]
fn create_device_with_scaffold_hooks_false_never_mounts_for_scaffolding() {
    let log = new_call_log();
    let luks = FakeLuksBackend::passing().with_log(log.clone());
    let fido2 = FakeFido2Backend::passing().with_log(log.clone());
    let fs = FakeFilesystemBackend::passing()
        .with_log(log.clone())
        .with_device_capacity(MIN_VOLUME_SIZE_BYTES * 2);

    let fixture = RealFixtureFile::create("create-scaffold-hooks-false-device");
    let target = CreateTarget::Device {
        path: fixture.0.clone(),
        size: None,
        confirmed: true,
    };

    let result = create::run(
        target,
        Filesystem::Ext4,
        false,
        None,
        None,
        false,
        Fido2DeviceSelection::Interactive,
        &no_progress,
        &mut Ports::new(&luks, &fido2, &fs),
    );

    assert!(result.is_ok(), "expected Ok(()), got {result:?}");
    assert_eq!(
        *log.borrow(),
        vec![
            "check_prerequisites".to_string(),
            "has_luks2_header".to_string(),
            "device_capacity".to_string(),
            "close_stale_mapping".to_string(),
            "bootstrap_format_and_open".to_string(),
            "enroll_fido2_key".to_string(),
            "mkfs".to_string(),
            "remove_marker_token".to_string(),
            "list_fido2_keyslots".to_string(),
            "remove_key".to_string(),
            "close".to_string(),
        ],
        "with scaffold_hooks false, the write path must never even be reached"
    );
    assert_eq!(fs.last_scaffold_hook_templates_mountpoint(), None);
}

#[test]
fn create_scaffold_hook_templates_failure_still_unmounts_before_returning_the_error() {
    let log = new_call_log();
    let luks = FakeLuksBackend::passing().with_log(log.clone());
    let fido2 = FakeFido2Backend::passing().with_log(log.clone());
    let fs = FakeFilesystemBackend::passing()
        .with_log(log.clone())
        .with_failure_at("scaffold_hook_templates");

    let fixture = RealFixtureFile::create("create-scaffold-hooks-scaffold-failure");
    let target = CreateTarget::File {
        path: fixture.0.clone(),
        size: MIN_VOLUME_SIZE_BYTES,
    };

    let result = create::run(
        target,
        Filesystem::Ext4,
        false,
        None,
        None,
        true,
        Fido2DeviceSelection::Interactive,
        &no_progress,
        &mut Ports::new(&luks, &fido2, &fs),
    );

    assert!(result.is_err(), "expected Err, got {result:?}");
    assert_eq!(
        *log.borrow(),
        vec![
            "check_prerequisites".to_string(),
            "path_exists".to_string(),
            "set_backing_file_size".to_string(),
            "close_stale_mapping".to_string(),
            "bootstrap_format_and_open".to_string(),
            "enroll_fido2_key".to_string(),
            "mkfs".to_string(),
            "mount".to_string(),
            "scaffold_hook_templates".to_string(),
            "umount".to_string(),
            "close".to_string(),
            "remove_backing_file".to_string(),
        ],
        "a scaffold_hook_templates failure must still unmount before returning the error, or \
         the outer luks.close misreports device-busy instead of the real failure"
    );
}

#[test]
fn create_scaffold_hooks_umount_failure_after_a_scaffold_failure_wraps_as_rollback_cleanup_also_failed(
) {
    let luks = FakeLuksBackend::passing();
    let fido2 = FakeFido2Backend::passing();

    let fixture = RealFixtureFile::create("create-scaffold-hooks-scaffold-and-umount-failure");
    let expected_name = mapping_name::mapping_name(&mut Ports::new(&FakeLuksBackend::passing(), &FakeFido2Backend::passing(), &FakeFilesystemBackend::passing()), &fixture.0).unwrap();
    let fs = FakeFilesystemBackend::passing()
        .with_failure_at("scaffold_hook_templates")
        .with_umount_failure_for(&expected_name);

    let target = CreateTarget::File {
        path: fixture.0.clone(),
        size: MIN_VOLUME_SIZE_BYTES,
    };

    let result = create::run(
        target,
        Filesystem::Ext4,
        false,
        None,
        None,
        true,
        Fido2DeviceSelection::Interactive,
        &no_progress,
        &mut Ports::new(&luks, &fido2, &fs),
    );

    assert!(
        matches!(result, Err(DomainError::RollbackCleanupAlsoFailed { .. })),
        "expected Err(DomainError::RollbackCleanupAlsoFailed), got {result:?}"
    );
}

#[test]
fn create_scaffold_hooks_umount_failure_alone_surfaces_the_bare_umount_error() {
    let luks = FakeLuksBackend::passing();
    let fido2 = FakeFido2Backend::passing();

    let fixture = RealFixtureFile::create("create-scaffold-hooks-umount-failure-alone");
    let expected_name = mapping_name::mapping_name(&mut Ports::new(&FakeLuksBackend::passing(), &FakeFido2Backend::passing(), &FakeFilesystemBackend::passing()), &fixture.0).unwrap();
    let fs = FakeFilesystemBackend::passing().with_umount_failure_for(&expected_name);

    let target = CreateTarget::File {
        path: fixture.0.clone(),
        size: MIN_VOLUME_SIZE_BYTES,
    };

    let result = create::run(
        target,
        Filesystem::Ext4,
        false,
        None,
        None,
        true,
        Fido2DeviceSelection::Interactive,
        &no_progress,
        &mut Ports::new(&luks, &fido2, &fs),
    );

    assert!(
        matches!(result, Err(DomainError::AdapterFailure(_))),
        "expected the bare umount error to surface untouched, got {result:?}"
    );
    assert!(
        !matches!(result, Err(DomainError::RollbackCleanupAlsoFailed { .. })),
        "scaffold_hook_templates succeeded, so this must not be reported as a rollback-also-failed, \
         got {result:?}"
    );
}

// ---- progress
#[test]
fn create_file_backed_fires_all_four_stages_in_real_order() {
    let luks = FakeLuksBackend::passing();
    let fido2 = FakeFido2Backend::passing();
    let fs = FakeFilesystemBackend::passing();

    let fixture = RealFixtureFile::create("progress-progress-create-file-backed");
    let target = CreateTarget::File {
        path: fixture.0.clone(),
        size: MIN_VOLUME_SIZE_BYTES,
    };

    let stages: Rc<RefCell<Vec<CreateStage>>> = Rc::new(RefCell::new(Vec::new()));
    let recorder = stages.clone();

    let result = create::run(
        target,
        Filesystem::Ext4,
        false,
        None,
        None,
        false,
        Fido2DeviceSelection::Interactive,
        &|stage| recorder.borrow_mut().push(stage),
        &mut Ports::new(&luks, &fido2, &fs),
    );

    assert!(result.is_ok(), "expected Ok(()), got {result:?}");
    assert_eq!(
        *stages.borrow(),
        vec![
            CreateStage::AllocatingBackingFile,
            CreateStage::FormattingLuks2,
            CreateStage::EnrollingFido2Key,
            CreateStage::CreatingFilesystem,
        ]
    );
}

#[test]
fn create_device_backed_never_fires_allocating_backing_file() {
    let luks = FakeLuksBackend::passing();
    let fido2 = FakeFido2Backend::passing();
    let fs = FakeFilesystemBackend::passing().with_device_capacity(MIN_VOLUME_SIZE_BYTES * 2);

    let fixture = RealFixtureFile::create("progress-progress-create-device-backed");
    let target = CreateTarget::Device {
        path: fixture.0.clone(),
        size: None,
        confirmed: true,
    };

    let stages: Rc<RefCell<Vec<CreateStage>>> = Rc::new(RefCell::new(Vec::new()));
    let recorder = stages.clone();

    let result = create::run(
        target,
        Filesystem::Ext4,
        false,
        None,
        None,
        false,
        Fido2DeviceSelection::Interactive,
        &|stage| recorder.borrow_mut().push(stage),
        &mut Ports::new(&luks, &fido2, &fs),
    );

    assert!(result.is_ok(), "expected Ok(()), got {result:?}");
    assert_eq!(
        *stages.borrow(),
        vec![
            CreateStage::FormattingLuks2,
            CreateStage::EnrollingFido2Key,
            CreateStage::CreatingFilesystem,
        ]
    );
}

#[test]
fn resize_file_backed_fires_all_three_stages_in_order() {
    let luks = FakeLuksBackend::passing();
    let fido2 = FakeFido2Backend::passing();
    let fs = FakeFilesystemBackend::passing()
        .with_is_block_device(false)
        .with_device_capacity(4096)
        .with_filesystem_size(4096);

    let fixture = RealFixtureFile::create("progress-progress-resize-file-backed");
    fs.set_file_len(&fixture.0, 4096);

    let stages: Rc<RefCell<Vec<ResizeStage>>> = Rc::new(RefCell::new(Vec::new()));
    let recorder = stages.clone();

    let result = resize::run(
        &fixture.0,
        8192,
        &|stage| recorder.borrow_mut().push(stage),
        &mut Ports::new(&luks, &fido2, &fs),
    );

    assert!(result.is_ok(), "expected Ok(()), got {result:?}");
    assert_eq!(
        *stages.borrow(),
        vec![
            ResizeStage::GrowingBackingFile,
            ResizeStage::ResizingLuks2Mapping,
            ResizeStage::GrowingFilesystem,
        ]
    );
}

#[test]
fn resize_device_backed_skips_growing_backing_file() {
    let luks = FakeLuksBackend::passing();
    let fido2 = FakeFido2Backend::passing();
    let fs = FakeFilesystemBackend::passing()
        .with_is_block_device(true)
        .with_device_capacity(1024 * 1024 * 1024)
        .with_filesystem_size(4096);

    let fixture = RealFixtureFile::create("progress-progress-resize-device-backed");
    fs.set_file_len(&fixture.0, 4096);

    let stages: Rc<RefCell<Vec<ResizeStage>>> = Rc::new(RefCell::new(Vec::new()));
    let recorder = stages.clone();

    let result = resize::run(
        &fixture.0,
        8192,
        &|stage| recorder.borrow_mut().push(stage),
        &mut Ports::new(&luks, &fido2, &fs),
    );

    assert!(result.is_ok(), "expected Ok(()), got {result:?}");
    assert_eq!(
        *stages.borrow(),
        vec![
            ResizeStage::ResizingLuks2Mapping,
            ResizeStage::GrowingFilesystem
        ]
    );
}

#[test]
fn create_does_not_fire_creating_filesystem_when_enroll_fails() {
    // A stage's message must never fire for work that never actually
    // completed — a failure between two stage boundaries should record only
    // the stages up to and including the one whose port call is about to
    // fail, never the ones after it.
    let luks = FakeLuksBackend::passing();
    let fido2 = FakeFido2Backend::passing().with_failure_at("enroll_fido2_key");
    let fs = FakeFilesystemBackend::passing();

    let fixture = RealFixtureFile::create("progress-progress-create-enroll-failure");
    let target = CreateTarget::File {
        path: fixture.0.clone(),
        size: MIN_VOLUME_SIZE_BYTES,
    };

    let stages: Rc<RefCell<Vec<CreateStage>>> = Rc::new(RefCell::new(Vec::new()));
    let recorder = stages.clone();

    let result = create::run(
        target,
        Filesystem::Ext4,
        false,
        None,
        None,
        false,
        Fido2DeviceSelection::Interactive,
        &|stage| recorder.borrow_mut().push(stage),
        &mut Ports::new(&luks, &fido2, &fs),
    );

    assert!(result.is_err(), "expected Err, got {result:?}");
    assert_eq!(
        *stages.borrow(),
        vec![
            CreateStage::AllocatingBackingFile,
            CreateStage::FormattingLuks2,
            CreateStage::EnrollingFido2Key,
        ],
        "CreatingFilesystem must not fire once enroll_fido2_key has failed"
    );
}

#[test]
fn resize_does_not_fire_growing_filesystem_when_luks_resize_fails() {
    let luks = FakeLuksBackend::passing().with_failure_at("resize");
    let fido2 = FakeFido2Backend::passing();
    let fs = FakeFilesystemBackend::passing()
        .with_is_block_device(false)
        .with_device_capacity(4096)
        .with_filesystem_size(4096);

    let fixture = RealFixtureFile::create("progress-progress-resize-luks-resize-failure");
    fs.set_file_len(&fixture.0, 4096);

    let stages: Rc<RefCell<Vec<ResizeStage>>> = Rc::new(RefCell::new(Vec::new()));
    let recorder = stages.clone();

    let result = resize::run(
        &fixture.0,
        8192,
        &|stage| recorder.borrow_mut().push(stage),
        &mut Ports::new(&luks, &fido2, &fs),
    );

    assert!(result.is_err(), "expected Err, got {result:?}");
    assert_eq!(
        *stages.borrow(),
        vec![
            ResizeStage::GrowingBackingFile,
            ResizeStage::ResizingLuks2Mapping,
        ],
        "GrowingFilesystem must not fire once luks.resize has failed"
    );
}

// ---- resize
#[test]
fn file_backed_happy_path_runs_every_port_call_once_in_order() {
    let log = new_call_log();
    let luks = FakeLuksBackend::passing().with_log(log.clone());
    let fido2 = FakeFido2Backend::passing().with_log(log.clone());
    let fs = FakeFilesystemBackend::passing()
        .with_log(log.clone())
        .with_is_block_device(false)
        .with_device_capacity(4096)
        .with_filesystem_size(4096);

    let fixture = RealFixtureFile::create("resize-resize-file-happy-path");
    fs.set_file_len(&fixture.0, 4096);

    let result = resize::run(&fixture.0, 8192, &no_progress, &mut Ports::new(&luks, &fido2, &fs));

    assert!(result.is_ok(), "expected Ok, got {result:?}");
    assert_eq!(
        *log.borrow(),
        vec![
            "check_prerequisites".to_string(),
            "is_block_device".to_string(),
            "read_filesystem".to_string(),
            "check_prerequisites".to_string(),
            "open".to_string(),
            "device_capacity".to_string(),
            "filesystem_size".to_string(),
            "set_backing_file_size".to_string(),
            "resize".to_string(),
            "growfs".to_string(),
            "close".to_string(),
        ]
    );

    let expected_name = mapping_name::mapping_name(&mut Ports::new(&FakeLuksBackend::passing(), &FakeFido2Backend::passing(), &FakeFilesystemBackend::passing()), &fixture.0).unwrap();
    assert_eq!(luks.last_open().unwrap().1, expected_name);
    assert_eq!(luks.last_resize().unwrap().name, expected_name);
    assert_eq!(luks.last_close().unwrap().name, expected_name);
}

#[test]
fn growfs_receives_whatever_read_filesystem_reports() {
    let log = new_call_log();
    let luks = FakeLuksBackend::passing()
        .with_log(log.clone())
        .with_read_filesystem(Filesystem::Ext4);
    let fido2 = FakeFido2Backend::passing().with_log(log.clone());
    let fs = FakeFilesystemBackend::passing()
        .with_log(log.clone())
        .with_is_block_device(false)
        .with_device_capacity(4096)
        .with_filesystem_size(4096);

    let fixture = RealFixtureFile::create("resize-resize-growfs-filesystem");
    fs.set_file_len(&fixture.0, 4096);

    let result = resize::run(&fixture.0, 8192, &no_progress, &mut Ports::new(&luks, &fido2, &fs));

    assert!(result.is_ok(), "expected Ok, got {result:?}");
    assert_eq!(fs.last_growfs_filesystem(), Some(Filesystem::Ext4));
}

#[test]
fn device_backed_happy_path_never_calls_set_backing_file_size() {
    let log = new_call_log();
    let luks = FakeLuksBackend::passing().with_log(log.clone());
    let fido2 = FakeFido2Backend::passing().with_log(log.clone());
    let fs = FakeFilesystemBackend::passing()
        .with_log(log.clone())
        .with_is_block_device(true)
        .with_device_capacity(1024 * 1024 * 1024)
        .with_filesystem_size(4096);

    let fixture = RealFixtureFile::create("resize-resize-device-happy-path");
    fs.set_file_len(&fixture.0, 4096);

    let result = resize::run(&fixture.0, 8192, &no_progress, &mut Ports::new(&luks, &fido2, &fs));

    assert!(result.is_ok(), "expected Ok, got {result:?}");
    assert_eq!(
        *log.borrow(),
        vec![
            "check_prerequisites".to_string(),
            "is_block_device".to_string(),
            "device_capacity".to_string(),
            "read_filesystem".to_string(),
            "check_prerequisites".to_string(),
            "open".to_string(),
            "device_capacity".to_string(),
            "filesystem_size".to_string(),
            "resize".to_string(),
            "growfs".to_string(),
            "close".to_string(),
        ]
    );
}

#[test]
fn file_backed_true_shrink_is_rejected_by_tier_one_before_any_adapter_call() {
    let log = new_call_log();
    let luks = FakeLuksBackend::passing().with_log(log.clone());
    let fido2 = FakeFido2Backend::passing().with_log(log.clone());
    let fs = FakeFilesystemBackend::passing().with_log(log.clone());

    let fixture = RealFixtureFile::create("resize-resize-true-shrink");
    fs.set_file_len(&fixture.0, 4096);

    let result = resize::run(&fixture.0, 2048, &no_progress, &mut Ports::new(&luks, &fido2, &fs));

    let Err(DomainError::ResizeMustGrow {
        requested,
        current_size,
        ..
    }) = result
    else {
        panic!("expected ResizeMustGrow, got {result:?}");
    };
    assert_eq!(requested, 2048);
    assert_eq!(current_size, 4096);
    assert_eq!(
        *log.borrow(),
        vec![
            "check_prerequisites".to_string(),
            "is_block_device".to_string()
        ],
        "a true shrink must be rejected before any adapter call"
    );
}

#[test]
fn file_backed_no_op_same_size_request_is_rejected_by_tier_two() {
    let log = new_call_log();
    let luks = FakeLuksBackend::passing().with_log(log.clone());
    let fido2 = FakeFido2Backend::passing().with_log(log.clone());
    let fs = FakeFilesystemBackend::passing()
        .with_log(log.clone())
        .with_device_capacity(4096)
        .with_filesystem_size(4096);

    // Requesting exactly the current size no longer trips tier 1 (which now
    // only rejects a strict shrink, so a same-size retry after a prior
    // partial grow can still reach tier 2) — but tier 2's live filesystem
    // check still correctly rejects it as a no-op once the mapping is open.
    let fixture = RealFixtureFile::create("resize-resize-no-op-same-size");
    fs.set_file_len(&fixture.0, 4096);

    let result = resize::run(&fixture.0, 4096, &no_progress, &mut Ports::new(&luks, &fido2, &fs));

    let Err(DomainError::ResizeMustGrow {
        requested,
        current_size,
        ..
    }) = result
    else {
        panic!("expected ResizeMustGrow, got {result:?}");
    };
    assert_eq!(requested, 4096);
    assert_eq!(current_size, 4096);
    assert_eq!(
        *log.borrow(),
        vec![
            "check_prerequisites".to_string(),
            "is_block_device".to_string(),
            "read_filesystem".to_string(),
            "check_prerequisites".to_string(),
            "open".to_string(),
            "device_capacity".to_string(),
            "filesystem_size".to_string(),
            "close".to_string(),
        ],
        "tier 2's rejection must still close the mapping it opened"
    );
}

#[test]
fn file_backed_same_size_request_is_rejected_even_with_a_large_header_overhead() {
    let log = new_call_log();
    let luks = FakeLuksBackend::passing().with_log(log.clone());
    let fido2 = FakeFido2Backend::passing().with_log(log.clone());
    // Mapper payload capacity (post-header) is half the raw file size —
    // modeling a LUKS2 header that consumes the other half, and the
    // filesystem is already fully grown to fill that payload.
    let fs = FakeFilesystemBackend::passing()
        .with_log(log.clone())
        .with_mapper_capacity(16 * 1024 * 1024)
        .with_filesystem_size(16 * 1024 * 1024);

    let fixture = RealFixtureFile::create("resize-resize-same-size-with-header-overhead");
    fs.set_file_len(&fixture.0, 32*1024*1024);

    let result = resize::run(
        &fixture.0,
        32 * 1024 * 1024,
        &no_progress,
        &mut Ports::new(&luks, &fido2, &fs),
    );

    let Err(DomainError::ResizeMustGrow {
        requested,
        current_size,
        ..
    }) = result
    else {
        panic!("expected ResizeMustGrow, got {result:?}");
    };
    assert_eq!(requested, 32 * 1024 * 1024);
    assert_eq!(current_size, 32 * 1024 * 1024);
    assert_eq!(
        *log.borrow(),
        vec![
            "check_prerequisites".to_string(),
            "is_block_device".to_string(),
            "read_filesystem".to_string(),
            "check_prerequisites".to_string(),
            "open".to_string(),
            "device_capacity".to_string(),
            "filesystem_size".to_string(),
            "close".to_string(),
        ],
        "tier 2's rejection must still close the mapping it opened"
    );
}

// Device-backed analog of the test above — the fix's core header-derivation
// logic (two separate `device_capacity` calls: tier 1 against the raw
// device path, tier 2 against the mapper's own device node) is only
// distinguishable from the pre-fix bug when the fake can actually return
// different values for the two call sites, which `with_mapper_capacity`
// (distinct from `with_device_capacity`) now lets it do.
#[test]
fn device_backed_same_size_request_is_rejected_even_with_a_large_header_overhead() {
    let log = new_call_log();
    let luks = FakeLuksBackend::passing().with_log(log.clone());
    let fido2 = FakeFido2Backend::passing().with_log(log.clone());
    // Raw device capacity is 32 MiB; the mapper's own payload capacity
    // (post-header) is half of that — modeling a LUKS2 header that
    // consumes the other half, and the filesystem is already fully grown
    // to fill that payload.
    let fs = FakeFilesystemBackend::passing()
        .with_log(log.clone())
        .with_is_block_device(true)
        .with_device_capacity(32 * 1024 * 1024)
        .with_mapper_capacity(16 * 1024 * 1024)
        .with_filesystem_size(16 * 1024 * 1024);

    let fixture = RealFixtureFile::create("resize-resize-device-same-size-with-header-overhead");
    fs.set_file_len(&fixture.0, 4096);

    let result = resize::run(
        &fixture.0,
        32 * 1024 * 1024,
        &no_progress,
        &mut Ports::new(&luks, &fido2, &fs),
    );

    let Err(DomainError::ResizeMustGrow {
        requested,
        current_size,
        ..
    }) = result
    else {
        panic!("expected ResizeMustGrow, got {result:?}");
    };
    assert_eq!(requested, 32 * 1024 * 1024);
    assert_eq!(current_size, 32 * 1024 * 1024);
    assert_eq!(
        *log.borrow(),
        vec![
            "check_prerequisites".to_string(),
            "is_block_device".to_string(),
            "device_capacity".to_string(),
            "read_filesystem".to_string(),
            "check_prerequisites".to_string(),
            "open".to_string(),
            "device_capacity".to_string(),
            "filesystem_size".to_string(),
            "close".to_string(),
        ],
        "tier 2's rejection must still close the mapping it opened"
    );
}

#[test]
fn file_backed_retry_after_a_partial_failure_completes_instead_of_being_rejected() {
    let log = new_call_log();
    let luks = FakeLuksBackend::passing().with_log(log.clone());
    let fido2 = FakeFido2Backend::passing().with_log(log.clone());
    let fs = FakeFilesystemBackend::passing()
        .with_log(log.clone())
        .with_device_capacity(8192)
        .with_filesystem_size(4096);

    // The backing file is already 8192 bytes (as if a prior resize call's
    // `set_backing_file_size` already succeeded), but the live filesystem
    // is still only 4096 bytes (as if that same prior call then failed
    // before `growfs` completed).
    let fixture = RealFixtureFile::create("resize-resize-retry-after-partial-failure");
    fs.set_file_len(&fixture.0, 8192);

    let result = resize::run(&fixture.0, 8192, &no_progress, &mut Ports::new(&luks, &fido2, &fs));

    assert!(result.is_ok(), "expected Ok, got {result:?}");
    assert_eq!(
        *log.borrow(),
        vec![
            "check_prerequisites".to_string(),
            "is_block_device".to_string(),
            "read_filesystem".to_string(),
            "check_prerequisites".to_string(),
            "open".to_string(),
            "device_capacity".to_string(),
            "filesystem_size".to_string(),
            "set_backing_file_size".to_string(),
            "resize".to_string(),
            "growfs".to_string(),
            "close".to_string(),
        ],
        "a retry with an already-grown backing file must still complete the resize"
    );
}

#[test]
fn device_backed_too_small_partition_rejection_never_calls_open() {
    let log = new_call_log();
    let luks = FakeLuksBackend::passing().with_log(log.clone());
    let fido2 = FakeFido2Backend::passing().with_log(log.clone());
    let fs = FakeFilesystemBackend::passing()
        .with_log(log.clone())
        .with_is_block_device(true)
        .with_device_capacity(1024);

    let fixture = RealFixtureFile::create("resize-resize-too-small-partition");
    fs.set_file_len(&fixture.0, 4096);

    let result = resize::run(&fixture.0, 2048, &no_progress, &mut Ports::new(&luks, &fido2, &fs));

    let Err(DomainError::DeviceSizeExceedsCapacity {
        requested,
        capacity,
        ..
    }) = result
    else {
        panic!("expected DeviceSizeExceedsCapacity, got {result:?}");
    };
    assert_eq!(requested, 2048);
    assert_eq!(capacity, 1024);
    assert_eq!(
        *log.borrow(),
        vec![
            "check_prerequisites".to_string(),
            "is_block_device".to_string(),
            "device_capacity".to_string()
        ],
        "too-small-partition rejection must not reach read_filesystem or luks.open"
    );
}

#[test]
fn device_backed_headroom_shrink_is_caught_by_tier_two_and_closes_the_mapping() {
    let log = new_call_log();
    let luks = FakeLuksBackend::passing().with_log(log.clone());
    let fido2 = FakeFido2Backend::passing().with_log(log.clone());
    let fs = FakeFilesystemBackend::passing()
        .with_log(log.clone())
        .with_is_block_device(true)
        .with_device_capacity(1024 * 1024 * 1024) // raw device is huge...
        .with_filesystem_size(4096); // ...but this volume's filesystem only uses 4096 bytes of it.

    let fixture = RealFixtureFile::create("resize-resize-headroom-shrink");
    fs.set_file_len(&fixture.0, 4096);

    // Passes tier 1 (well within raw capacity) but does not actually grow
    // the volume's live current filesystem size of 4096.
    let result = resize::run(&fixture.0, 4096, &no_progress, &mut Ports::new(&luks, &fido2, &fs));

    let Err(DomainError::ResizeMustGrow {
        requested,
        current_size,
        ..
    }) = result
    else {
        panic!("expected ResizeMustGrow, got {result:?}");
    };
    assert_eq!(requested, 4096);
    assert_eq!(current_size, 4096);
    assert_eq!(
        *log.borrow(),
        vec![
            "check_prerequisites".to_string(),
            "is_block_device".to_string(),
            "device_capacity".to_string(),
            "read_filesystem".to_string(),
            "check_prerequisites".to_string(),
            "open".to_string(),
            "device_capacity".to_string(),
            "filesystem_size".to_string(),
            "close".to_string(),
        ],
        "tier 2's rejection must still close the mapping tier 2 itself just opened"
    );
}

#[test]
fn mid_flow_failure_after_a_successful_resize_still_closes_the_mapping() {
    let log = new_call_log();
    let luks = FakeLuksBackend::passing().with_log(log.clone());
    let fido2 = FakeFido2Backend::passing().with_log(log.clone());
    let fs = FakeFilesystemBackend::passing()
        .with_log(log.clone())
        .with_is_block_device(false)
        .with_device_capacity(4096)
        .with_filesystem_size(4096)
        .with_failure_at("growfs");

    let fixture = RealFixtureFile::create("resize-resize-mid-flow-failure");
    fs.set_file_len(&fixture.0, 4096);

    let result = resize::run(&fixture.0, 8192, &no_progress, &mut Ports::new(&luks, &fido2, &fs));

    assert!(result.is_err(), "expected Err, got {result:?}");
    assert_eq!(
        *log.borrow(),
        vec![
            "check_prerequisites".to_string(),
            "is_block_device".to_string(),
            "read_filesystem".to_string(),
            "check_prerequisites".to_string(),
            "open".to_string(),
            "device_capacity".to_string(),
            "filesystem_size".to_string(),
            "set_backing_file_size".to_string(),
            "resize".to_string(),
            "growfs".to_string(),
            "close".to_string(),
        ],
        "a failure after a successful resize must still close the mapping"
    );
}

#[test]
fn close_failure_after_a_successful_grow_reports_the_grow_succeeded() {
    let log = new_call_log();
    let luks = FakeLuksBackend::passing()
        .with_log(log.clone())
        .with_failure_at("close");
    let fido2 = FakeFido2Backend::passing().with_log(log.clone());
    let fs = FakeFilesystemBackend::passing()
        .with_log(log.clone())
        .with_device_capacity(4096)
        .with_filesystem_size(4096);

    let fixture = RealFixtureFile::create("resize-resize-close-failure-after-grow");
    fs.set_file_len(&fixture.0, 4096);

    let result = resize::run(&fixture.0, 8192, &no_progress, &mut Ports::new(&luks, &fido2, &fs));

    let Err(DomainError::AdapterFailure(message)) = result else {
        panic!("expected AdapterFailure, got {result:?}");
    };
    assert!(
        message.contains("volume grown to 8192 bytes"),
        "message should acknowledge the grow succeeded: {message:?}"
    );
    assert!(
        message.contains("failed to re-lock afterward"),
        "message should distinguish this from a plain resize failure: {message:?}"
    );
}

#[test]
fn resize_calls_check_prerequisites_twice_with_none_then_the_read_filesystem_value() {
    let luks = FakeLuksBackend::passing().with_read_filesystem(Filesystem::Xfs);
    let fido2 = FakeFido2Backend::passing();
    let fs = FakeFilesystemBackend::passing()
        .with_device_capacity(4096)
        .with_filesystem_size(4096);

    let fixture = RealFixtureFile::create("resize-resize-check-prerequisites-order");
    fs.set_file_len(&fixture.0, 4096);

    let result = resize::run(&fixture.0, 8192, &no_progress, &mut Ports::new(&luks, &fido2, &fs));

    assert!(result.is_ok(), "expected Ok, got {result:?}");
    assert_eq!(
        fs.check_prerequisites_filesystem_calls(),
        vec![None, Some(Filesystem::Xfs)]
    );
}

// Proves a missing xfs toolchain actually aborts resize with PreflightFailed
// before luks.open ever spends a real FIDO2 touch — the preflight gate is
// load-bearing, not just logged.
#[test]
fn resize_aborts_before_opening_when_preflight_finds_a_missing_toolchain() {
    let luks = FakeLuksBackend::passing().with_read_filesystem(Filesystem::Xfs);
    let fido2 = FakeFido2Backend::passing();
    let fs = FakeFilesystemBackend::failing(&["mkfs.xfs"]);

    let fixture = RealFixtureFile::create("resize-resize-second-preflight-blocks-open");
    fs.set_file_len(&fixture.0, 4096);

    let result = resize::run(&fixture.0, 8192, &no_progress, &mut Ports::new(&luks, &fido2, &fs));

    assert!(
        matches!(result, Err(DomainError::PreflightFailed(_))),
        "expected PreflightFailed, got {result:?}"
    );
    assert_eq!(
        luks.last_open(),
        None,
        "the second preflight call must abort before luks.open is ever reached"
    );
}

#[test]
fn resize_to_btrfs_below_its_own_kernel_floor_is_refused_before_any_mutating_call() {
    let log = new_call_log();
    let luks = FakeLuksBackend::passing()
        .with_log(log.clone())
        .with_read_filesystem(Filesystem::Btrfs);
    let fido2 = FakeFido2Backend::passing().with_log(log.clone());
    let fs = FakeFilesystemBackend::passing()
        .with_log(log.clone())
        .with_device_capacity(4096)
        .with_filesystem_size(4096);

    let fixture = RealFixtureFile::create("resize-resize-btrfs-below-kernel-floor");
    fs.set_file_len(&fixture.0, 4096);

    // A real grow (200 MiB is comfortably above the live 4096-byte current
    // size), but well under Btrfs's own 256 MiB resize floor.
    let target_size = 200 * 1024 * 1024;
    let result = resize::run(&fixture.0, target_size, &no_progress, &mut Ports::new(&luks, &fido2, &fs));

    match result {
        Err(DomainError::DeviceTooSmall { path, size }) => {
            assert_eq!(path, fixture.0);
            assert_eq!(size, target_size);
        }
        other => panic!("expected DomainError::DeviceTooSmall, got {other:?}"),
    }
    assert_eq!(
        *log.borrow(),
        vec![
            "check_prerequisites".to_string(),
            "is_block_device".to_string(),
            "read_filesystem".to_string(),
            "check_prerequisites".to_string(),
            "open".to_string(),
            "device_capacity".to_string(),
            "filesystem_size".to_string(),
            "close".to_string(),
        ],
        "must be refused before set_backing_file_size/resize/growfs, but still close the mapping it opened"
    );
}

// Proves the Btrfs-specific floor doesn't leak onto other filesystems: the
// exact same target size that Btrfs's own kernel floor refuses must still
// succeed for ext4, which has no equivalent resize-time minimum.
#[test]
fn resize_to_the_same_small_target_still_succeeds_for_ext4() {
    let luks = FakeLuksBackend::passing().with_read_filesystem(Filesystem::Ext4);
    let fido2 = FakeFido2Backend::passing();
    let fs = FakeFilesystemBackend::passing()
        .with_device_capacity(4096)
        .with_filesystem_size(4096);

    let fixture = RealFixtureFile::create("resize-resize-ext4-below-btrfs-floor");
    fs.set_file_len(&fixture.0, 4096);

    let result = resize::run(
        &fixture.0,
        200 * 1024 * 1024,
        &no_progress,
        &mut Ports::new(&luks, &fido2, &fs),
    );

    assert!(
        result.is_ok(),
        "ext4 must not be rejected by Btrfs's own, much higher resize floor: {result:?}"
    );
}

// ---- unlock
#[test]
fn happy_path_opens_and_mounts_using_the_shared_mapping_name() {
    let log = new_call_log();
    let luks = FakeLuksBackend::passing().with_log(log.clone());
    let fido2 = FakeFido2Backend::passing().with_log(log.clone());
    let fs = FakeFilesystemBackend::passing().with_log(log.clone());

    let fixture = RealFixtureFile::create("unlock-unlock-happy-path");

    let result = unlock::run(&fixture.0, false, false, &|_| {}, &mut Ports::new(&luks, &fido2, &fs));

    let expected_name = mapping_name::mapping_name(&mut Ports::new(&FakeLuksBackend::passing(), &FakeFido2Backend::passing(), &FakeFilesystemBackend::passing()), &fixture.0).unwrap();
    assert_eq!(
        result.unwrap(),
        String::from(format!("/tmp/fake-mount-{expected_name}"))
    );

    assert_eq!(
        *log.borrow(),
        vec![
            "check_prerequisites".to_string(),
            "open".to_string(),
            "mount".to_string(),
            "invoking_home_dir".to_string(),
            "path_exists".to_string(),
            "path_exists".to_string(),
        ]
    );
    assert_eq!(
        luks.last_open(),
        Some((fixture.0.clone(), expected_name, false))
    );
}

#[test]
fn read_only_true_is_passed_to_both_open_and_mount() {
    let log = new_call_log();
    let luks = FakeLuksBackend::passing().with_log(log.clone());
    let fido2 = FakeFido2Backend::passing().with_log(log.clone());
    let fs = FakeFilesystemBackend::passing().with_log(log.clone());

    let fixture = RealFixtureFile::create("unlock-unlock-read-only-true");

    let result = unlock::run(&fixture.0, true, false, &|_| {}, &mut Ports::new(&luks, &fido2, &fs));

    assert!(result.is_ok(), "expected Ok, got {result:?}");
    assert!(luks.last_open().unwrap().2);
    assert_eq!(fs.last_mount_read_only(), Some(true));
}

#[test]
fn read_only_false_is_passed_to_both_open_and_mount() {
    let log = new_call_log();
    let luks = FakeLuksBackend::passing().with_log(log.clone());
    let fido2 = FakeFido2Backend::passing().with_log(log.clone());
    let fs = FakeFilesystemBackend::passing().with_log(log.clone());

    let fixture = RealFixtureFile::create("unlock-unlock-read-only-false");

    let result = unlock::run(&fixture.0, false, false, &|_| {}, &mut Ports::new(&luks, &fido2, &fs));

    assert!(result.is_ok(), "expected Ok, got {result:?}");
    assert!(!luks.last_open().unwrap().2);
    assert_eq!(fs.last_mount_read_only(), Some(false));
}

#[test]
fn mount_failure_closes_the_just_opened_mapping() {
    let log = new_call_log();
    let luks = FakeLuksBackend::passing().with_log(log.clone());
    let fido2 = FakeFido2Backend::passing().with_log(log.clone());
    let fs = FakeFilesystemBackend::passing()
        .with_log(log.clone())
        .with_failure_at("mount");

    let fixture = RealFixtureFile::create("unlock-unlock-mount-failure");

    let result = unlock::run(&fixture.0, false, false, &|_| {}, &mut Ports::new(&luks, &fido2, &fs));

    assert!(result.is_err(), "expected Err, got {result:?}");
    assert_eq!(
        *log.borrow(),
        vec![
            "check_prerequisites".to_string(),
            "open".to_string(),
            "mount".to_string(),
            "close".to_string()
        ]
    );
}

#[test]
fn read_only_mount_failure_still_closes_the_just_opened_mapping() {
    let log = new_call_log();
    let luks = FakeLuksBackend::passing().with_log(log.clone());
    let fido2 = FakeFido2Backend::passing().with_log(log.clone());
    let fs = FakeFilesystemBackend::passing()
        .with_log(log.clone())
        .with_failure_at("mount");

    let fixture = RealFixtureFile::create("unlock-unlock-read-only-mount-failure");

    let result = unlock::run(&fixture.0, true, false, &|_| {}, &mut Ports::new(&luks, &fido2, &fs));

    assert!(result.is_err(), "expected Err, got {result:?}");
    assert_eq!(
        *log.borrow(),
        vec![
            "check_prerequisites".to_string(),
            "open".to_string(),
            "mount".to_string(),
            "close".to_string()
        ]
    );
}

#[test]
fn open_bind_mounts_every_valid_bind_hooks_entry_after_mount_succeeds() {
    let log = new_call_log();
    let luks = FakeLuksBackend::passing().with_log(log.clone());
    let fido2 = FakeFido2Backend::passing().with_log(log.clone());

    let fixture = RealFixtureFile::create("unlock-unlock-bind-hooks-happy-path");
    let expected_name = mapping_name::mapping_name(&mut Ports::new(&FakeLuksBackend::passing(), &FakeFido2Backend::passing(), &FakeFilesystemBackend::passing()), &fixture.0).unwrap();
    let mountpoint = RealFixtureDir::create(fake_mountpoint_for(&expected_name));
    mountpoint.subdir("src-a");
    mountpoint.subdir("src-b");
    let home = RealFixtureDir::create(
        PathBuf::from("/tmp").join("hypogaol-unit-test-unlock-bind-hooks-happy-path-home"),
    );
    home.subdir("dest-a");
    home.subdir("dest-b");
    

    let fs = FakeFilesystemBackend::passing()
        .with_log(log.clone())
        .with_path_exists(true)
        .with_invoking_home_dir(home.0.clone());
    fs.write_file(mountpoint.0.join("bind-hooks"), "src-a dest-a\nsrc-b dest-b\n");

    let result = unlock::run(&fixture.0, false, false, &|_| {}, &mut Ports::new(&luks, &fido2, &fs));

    assert!(result.is_ok(), "expected Ok, got {result:?}");
    let bind_mount_calls = log.borrow().iter().filter(|c| *c == "bind_mount").count();
    assert_eq!(
        bind_mount_calls,
        2,
        "expected both bind-hooks entries to be bind-mounted, log: {:?}",
        log.borrow()
    );
}

#[test]
fn open_skips_an_escaping_bind_hooks_entry_with_a_warning_and_continues() {
    let log = new_call_log();
    let luks = FakeLuksBackend::passing().with_log(log.clone());
    let fido2 = FakeFido2Backend::passing().with_log(log.clone());

    let fixture = RealFixtureFile::create("unlock-unlock-bind-hooks-escaping-entry");
    let expected_name = mapping_name::mapping_name(&mut Ports::new(&FakeLuksBackend::passing(), &FakeFido2Backend::passing(), &FakeFilesystemBackend::passing()), &fixture.0).unwrap();
    let mountpoint = RealFixtureDir::create(fake_mountpoint_for(&expected_name));
    mountpoint.subdir("src");
    let home = RealFixtureDir::create(
        PathBuf::from("/tmp").join("hypogaol-unit-test-unlock-bind-hooks-escaping-entry-home"),
    );
    let escaping_dest = mountpoint.0.to_string_lossy().into_owned();
    

    let fs = FakeFilesystemBackend::passing()
        .with_log(log.clone())
        .with_path_exists(true)
        .with_invoking_home_dir(home.0.clone());
    fs.write_file(mountpoint.0.join("bind-hooks"), &format!("src {escaping_dest}\n"));

    let warnings: RefCell<Vec<HookWarning>> = RefCell::new(Vec::new());
    let warn = |w: HookWarning| warnings.borrow_mut().push(w);

    let result = unlock::run(&fixture.0, false, false, &warn, &mut Ports::new(&luks, &fido2, &fs));

    assert!(
        result.is_ok(),
        "an escaping bind-hooks entry must not fail open, got {result:?}"
    );
    assert!(
        !log.borrow().contains(&"bind_mount".to_string()),
        "an escaping entry must never be bind-mounted, log: {:?}",
        log.borrow()
    );
    assert!(
        luks.last_close().is_none(),
        "a skipped entry is not a hard failure — no rollback"
    );
    assert_eq!(
        warnings.borrow().as_slice(),
        [HookWarning::BindHookSkipped {
            source: "src".to_string(),
            dest: escaping_dest,
            reason: BindHookSkipReason::DestEscapesHome,
        }]
    );
}

#[test]
fn open_warns_but_continues_when_bind_mount_itself_fails() {
    let log = new_call_log();
    let luks = FakeLuksBackend::passing().with_log(log.clone());
    let fido2 = FakeFido2Backend::passing().with_log(log.clone());

    let fixture = RealFixtureFile::create("unlock-unlock-bind-mount-call-fails");
    let expected_name = mapping_name::mapping_name(&mut Ports::new(&FakeLuksBackend::passing(), &FakeFido2Backend::passing(), &FakeFilesystemBackend::passing()), &fixture.0).unwrap();
    let mountpoint = RealFixtureDir::create(fake_mountpoint_for(&expected_name));
    mountpoint.subdir("src");
    let home = RealFixtureDir::create(
        PathBuf::from("/tmp").join("hypogaol-unit-test-unlock-bind-mount-call-fails-home"),
    );
    home.subdir("dest");
    

    let fs = FakeFilesystemBackend::passing()
        .with_log(log.clone())
        .with_path_exists(true)
        .with_invoking_home_dir(home.0.clone())
        .with_bind_mount_failure();
    fs.write_file(mountpoint.0.join("bind-hooks"), "src dest\n");

    let warnings: RefCell<Vec<HookWarning>> = RefCell::new(Vec::new());
    let warn = |w: HookWarning| warnings.borrow_mut().push(w);

    let result = unlock::run(&fixture.0, false, false, &warn, &mut Ports::new(&luks, &fido2, &fs));

    assert!(result.is_ok(), "expected Ok, got {result:?}");
    assert!(
        luks.last_close().is_none(),
        "not a hard failure — no rollback"
    );
    assert_eq!(
        warnings.borrow().as_slice(),
        [HookWarning::BindHookSkipped {
            source: "src".to_string(),
            dest: "dest".to_string(),
            reason: BindHookSkipReason::BindMountFailed,
        }]
    );
}

#[test]
fn open_warns_but_continues_when_exec_hooks_exits_nonzero() {
    let log = new_call_log();
    let luks = FakeLuksBackend::passing().with_log(log.clone());
    let fido2 = FakeFido2Backend::passing().with_log(log.clone());

    let fixture = RealFixtureFile::create("unlock-unlock-exec-hooks-nonzero-exit");
    let expected_name = mapping_name::mapping_name(&mut Ports::new(&FakeLuksBackend::passing(), &FakeFido2Backend::passing(), &FakeFilesystemBackend::passing()), &fixture.0).unwrap();
    let mountpoint = RealFixtureDir::create(fake_mountpoint_for(&expected_name));
    let exec_hooks_path = mountpoint.0.join("exec-hooks");
    
    // `with_path_exists(true)` below makes `bind-hooks` appear to exist too —
    // give it a real (empty) file so the read actually succeeds, keeping this
    // test's warnings assertion scoped to exec-hooks only.
    

    let fs = FakeFilesystemBackend::passing()
        .with_log(log.clone())
        .with_path_exists(true)
        .with_run_hook_exit_status(Some(3));
    fs.write_file(&exec_hooks_path, "#!/bin/sh\nexit 3\n");
    fs.write_file(mountpoint.0.join("bind-hooks"), "");

    let warnings: RefCell<Vec<HookWarning>> = RefCell::new(Vec::new());
    let warn = |w: HookWarning| warnings.borrow_mut().push(w);

    let result = unlock::run(&fixture.0, false, false, &warn, &mut Ports::new(&luks, &fido2, &fs));

    assert!(
        result.is_ok(),
        "a nonzero exec-hooks exit must not fail open, got {result:?}"
    );
    assert_eq!(
        warnings.borrow().as_slice(),
        [HookWarning::ExecHookNonZeroExit {
            path: text(&exec_hooks_path).to_string(),
            exit_code: Some(3),
        }]
    );
}

#[test]
fn open_runs_exec_hooks_with_open_and_the_mountpoint_when_guardrail_passes() {
    let log = new_call_log();
    let luks = FakeLuksBackend::passing().with_log(log.clone());
    let fido2 = FakeFido2Backend::passing().with_log(log.clone());

    let fixture = RealFixtureFile::create("unlock-unlock-exec-hooks-happy-path");
    let expected_name = mapping_name::mapping_name(&mut Ports::new(&FakeLuksBackend::passing(), &FakeFido2Backend::passing(), &FakeFilesystemBackend::passing()), &fixture.0).unwrap();
    let mountpoint = RealFixtureDir::create(fake_mountpoint_for(&expected_name));
    

    let fs = FakeFilesystemBackend::passing()
        .with_log(log.clone())
        .with_path_exists(true);
    fs.write_file(mountpoint.0.join("exec-hooks"), "#!/bin/sh\n");

    let result = unlock::run(&fixture.0, false, false, &|_| {}, &mut Ports::new(&luks, &fido2, &fs));

    assert!(result.is_ok(), "expected Ok, got {result:?}");
    let (path, args) = fs.last_run_hook().expect("expected run_hook to be called");
    assert_eq!(path, mountpoint.0.join("exec-hooks"));
    assert_eq!(args, vec!["open", &mountpoint.0.to_string_lossy()]);
}

#[test]
fn open_hard_errors_and_rolls_back_when_exec_hooks_guardrail_fails() {
    let log = new_call_log();
    let luks = FakeLuksBackend::passing().with_log(log.clone());
    let fido2 = FakeFido2Backend::passing().with_log(log.clone());

    let fixture = RealFixtureFile::create("unlock-unlock-exec-hooks-guardrail-fails");
    let expected_name = mapping_name::mapping_name(&mut Ports::new(&FakeLuksBackend::passing(), &FakeFido2Backend::passing(), &FakeFilesystemBackend::passing()), &fixture.0).unwrap();
    let mountpoint = RealFixtureDir::create(fake_mountpoint_for(&expected_name));
    mountpoint.subdir("src");
    let home = RealFixtureDir::create(
        PathBuf::from("/tmp").join("hypogaol-unit-test-unlock-exec-hooks-guardrail-fails-home"),
    );
    home.subdir("dest");
    
    

    let rejecting_meta = HookFileMeta {
        is_regular_file: true,
        is_symlink: false,
        is_executable: false,
        owned_by_invoking_user_or_root: true,
        is_world_writable: false,
    };
    let fs = FakeFilesystemBackend::passing()
        .with_log(log.clone())
        .with_path_exists(true)
        .with_invoking_home_dir(home.0.clone())
        .with_hook_file_metadata(rejecting_meta);
    fs.write_file(mountpoint.0.join("bind-hooks"), "src dest\n");
    fs.write_file(mountpoint.0.join("exec-hooks"), "#!/bin/sh\n");

    let result = unlock::run(&fixture.0, false, false, &|_| {}, &mut Ports::new(&luks, &fido2, &fs));

    assert!(result.is_err(), "expected Err, got {result:?}");
    assert!(
        log.borrow().contains(&"bind_mount".to_string()),
        "the valid bind-hooks entry must have been applied before the exec-hooks guardrail ran"
    );
    let bind_teardown = log
        .borrow()
        .iter()
        .position(|c| c == "unmount_bind_hook_destination");
    let umount = log.borrow().iter().position(|c| c == "umount");
    let close = log.borrow().iter().position(|c| c == "close");
    assert!(
        bind_teardown.is_some() && umount.is_some() && close.is_some(),
        "expected full rollback, log: {:?}",
        log.borrow()
    );
    assert!(bind_teardown.unwrap() < umount.unwrap());
    assert!(umount.unwrap() < close.unwrap());
    assert!(luks.last_close().is_some());
}

#[test]
fn open_skips_all_hooks_when_skip_hooks_true() {
    let log = new_call_log();
    let luks = FakeLuksBackend::passing().with_log(log.clone());
    let fido2 = FakeFido2Backend::passing().with_log(log.clone());
    let fs = FakeFilesystemBackend::passing()
        .with_log(log.clone())
        .with_path_exists(true);

    let fixture = RealFixtureFile::create("unlock-unlock-skip-hooks-true");

    let result = unlock::run(&fixture.0, false, true, &|_| {}, &mut Ports::new(&luks, &fido2, &fs));

    assert!(result.is_ok(), "expected Ok, got {result:?}");
    assert_eq!(
        *log.borrow(),
        vec![
            "check_prerequisites".to_string(),
            "open".to_string(),
            "mount".to_string()
        ]
    );
}

#[test]
fn open_skips_all_hooks_when_read_only_true_even_if_skip_hooks_false() {
    let log = new_call_log();
    let luks = FakeLuksBackend::passing().with_log(log.clone());
    let fido2 = FakeFido2Backend::passing().with_log(log.clone());
    let fs = FakeFilesystemBackend::passing()
        .with_log(log.clone())
        .with_path_exists(true);

    let fixture = RealFixtureFile::create("unlock-unlock-skip-hooks-read-only");

    let result = unlock::run(&fixture.0, true, false, &|_| {}, &mut Ports::new(&luks, &fido2, &fs));

    assert!(result.is_ok(), "expected Ok, got {result:?}");
    assert_eq!(
        *log.borrow(),
        vec![
            "check_prerequisites".to_string(),
            "open".to_string(),
            "mount".to_string()
        ]
    );
}

// ---- close
#[test]
fn happy_path_unmounts_then_closes_using_the_shared_mapping_name() {
    let log = new_call_log();
    let luks = FakeLuksBackend::passing().with_log(log.clone());
    let fido2 = FakeFido2Backend::passing().with_log(log.clone());
    let fs = FakeFilesystemBackend::passing().with_log(log.clone());

    let fixture = RealFixtureFile::create("close-close-happy-path");

    let result = close::run(&fixture.0, false, &|_| {}, &mut Ports::new(&luks, &fido2, &fs));

    assert!(result.is_ok(), "expected Ok, got {result:?}");
    assert_eq!(
        *log.borrow(),
        vec![
            "check_prerequisites".to_string(),
            "mount_point_of".to_string(),
            "path_exists".to_string(),
            "path_exists".to_string(),
            "umount".to_string(),
            "close".to_string(),
        ]
    );

    // Both port calls must have been built from the same derived mapping
    // name — close never re-derives it twice into two different values.
    let expected_name = mapping_name::mapping_name(&mut Ports::new(&FakeLuksBackend::passing(), &FakeFido2Backend::passing(), &FakeFilesystemBackend::passing()), &fixture.0).unwrap();
    assert_eq!(fs.last_umount().unwrap().name, expected_name);
    assert_eq!(luks.last_close().unwrap().name, expected_name);
    assert_eq!(luks.last_open(), None, "close must never call luks.open");
}

#[test]
fn umount_failure_stops_before_calling_luks_close() {
    let log = new_call_log();
    let luks = FakeLuksBackend::passing().with_log(log.clone());
    let fido2 = FakeFido2Backend::passing().with_log(log.clone());
    let fs = FakeFilesystemBackend::passing()
        .with_log(log.clone())
        .with_failure_at("umount");

    let fixture = RealFixtureFile::create("close-close-umount-failure");

    let result = close::run(&fixture.0, false, &|_| {}, &mut Ports::new(&luks, &fido2, &fs));

    assert!(result.is_err(), "expected Err, got {result:?}");
    assert_eq!(
        *log.borrow(),
        vec![
            "check_prerequisites".to_string(),
            "mount_point_of".to_string(),
            "path_exists".to_string(),
            "path_exists".to_string(),
            "umount".to_string(),
        ]
    );
}

// Recovery for a prior partial failure (umount succeeded, luks.close then
// failed): a retry's `umount` now reports "not currently mounted" since the
// filesystem is already unmounted — that must not be treated as a hard
// stop, or the dangling open mapping could never be closed again (review
// finding, 2026-07-26).
#[test]
fn umount_reporting_not_currently_mounted_still_proceeds_to_luks_close() {
    let log = new_call_log();
    let luks = FakeLuksBackend::passing().with_log(log.clone());
    let fido2 = FakeFido2Backend::passing().with_log(log.clone());
    let fs = FakeFilesystemBackend::passing()
        .with_log(log.clone())
        .with_umount_not_currently_mounted();

    let fixture = RealFixtureFile::create("close-close-idempotent-retry");

    let result = close::run(&fixture.0, false, &|_| {}, &mut Ports::new(&luks, &fido2, &fs));

    assert!(result.is_ok(), "expected Ok, got {result:?}");
    assert_eq!(
        *log.borrow(),
        vec![
            "check_prerequisites".to_string(),
            "mount_point_of".to_string(),
            "path_exists".to_string(),
            "path_exists".to_string(),
            "umount".to_string(),
            "close".to_string(),
        ]
    );
}

#[test]
fn luks_close_failure_after_a_successful_umount_still_propagates_as_an_error() {
    let log = new_call_log();
    let luks = FakeLuksBackend::passing()
        .with_log(log.clone())
        .with_failure_at("close");
    let fido2 = FakeFido2Backend::passing().with_log(log.clone());
    let fs = FakeFilesystemBackend::passing().with_log(log.clone());

    let fixture = RealFixtureFile::create("close-close-luks-close-failure");

    let result = close::run(&fixture.0, false, &|_| {}, &mut Ports::new(&luks, &fido2, &fs));

    assert!(result.is_err(), "expected Err, got {result:?}");
    assert_eq!(
        *log.borrow(),
        vec![
            "check_prerequisites".to_string(),
            "mount_point_of".to_string(),
            "path_exists".to_string(),
            "path_exists".to_string(),
            "umount".to_string(),
            "close".to_string(),
        ]
    );
}

#[test]
fn close_runs_exec_hooks_with_close_volume_name_loopback_and_mapper_device_args() {
    let log = new_call_log();
    let luks = FakeLuksBackend::passing().with_log(log.clone());
    let fido2 = FakeFido2Backend::passing().with_log(log.clone());

    let fixture = RealFixtureFile::create("close-close-exec-hooks-happy-path");
    let mountpoint = RealFixtureDir::named("close-exec-hooks-happy-path-mnt");
    

    let fs = FakeFilesystemBackend::passing()
        .with_log(log.clone())
        .with_path_exists(true)
        .with_mount_point_of(mountpoint.0.clone());
    fs.write_file(mountpoint.0.join("exec-hooks"), "#!/bin/sh\n");

    let result = close::run(&fixture.0, false, &|_| {}, &mut Ports::new(&luks, &fido2, &fs));

    assert!(result.is_ok(), "expected Ok, got {result:?}");

    let expected_name = mapping_name::mapping_name(&mut Ports::new(&FakeLuksBackend::passing(), &FakeFido2Backend::passing(), &FakeFilesystemBackend::passing()), &fixture.0).unwrap();
    let expected_device_node = format!("/dev/mapper/{expected_name}");
    let expected_volume_name = Path::new(&fixture.0)
        .file_stem()
        .unwrap()
        .to_string_lossy()
        .into_owned();

    let (path, args) = fs.last_run_hook().expect("expected run_hook to be called");
    assert_eq!(path, mountpoint.0.join("exec-hooks"));
    assert_eq!(
        args,
        vec![
            "close",
            &mountpoint.0.to_string_lossy(),
            &expected_volume_name,
            &fixture.0,
            &expected_device_node,
        ]
    );
}

#[test]
fn close_hard_errors_before_touching_umount_when_exec_hooks_guardrail_fails() {
    let log = new_call_log();
    let luks = FakeLuksBackend::passing().with_log(log.clone());
    let fido2 = FakeFido2Backend::passing().with_log(log.clone());

    let fixture = RealFixtureFile::create("close-close-exec-hooks-guardrail-fails");
    let mountpoint = RealFixtureDir::named("close-exec-hooks-guardrail-fails-mnt");
    

    let rejecting_meta = HookFileMeta {
        is_regular_file: true,
        is_symlink: false,
        is_executable: false,
        owned_by_invoking_user_or_root: true,
        is_world_writable: false,
    };
    let fs = FakeFilesystemBackend::passing()
        .with_log(log.clone())
        .with_path_exists(true)
        .with_mount_point_of(mountpoint.0.clone())
        .with_hook_file_metadata(rejecting_meta);
    fs.write_file(mountpoint.0.join("exec-hooks"), "#!/bin/sh\n");

    let result = close::run(&fixture.0, false, &|_| {}, &mut Ports::new(&luks, &fido2, &fs));

    assert!(result.is_err(), "expected Err, got {result:?}");
    assert!(
        !log.borrow().contains(&"umount".to_string()),
        "must not touch umount when the guardrail rejects, log: {:?}",
        log.borrow()
    );
    assert!(
        !log.borrow().contains(&"close".to_string()),
        "must not touch luks.close when the guardrail rejects, log: {:?}",
        log.borrow()
    );
    assert!(luks.last_close().is_none());
}

#[test]
fn close_unmounts_bind_hooks_destinations_before_the_primary_mountpoint() {
    let log = new_call_log();
    let luks = FakeLuksBackend::passing().with_log(log.clone());
    let fido2 = FakeFido2Backend::passing().with_log(log.clone());

    let fixture = RealFixtureFile::create("close-close-bind-hooks-teardown-order");
    let mountpoint = RealFixtureDir::named("close-bind-hooks-teardown-order-mnt");
    mountpoint.subdir("src");
    let home = RealFixtureDir::named("close-bind-hooks-teardown-order-home-dir");
    home.subdir("dest");
    

    let fs = FakeFilesystemBackend::passing()
        .with_log(log.clone())
        .with_path_exists(true)
        .with_mount_point_of(mountpoint.0.clone())
        .with_invoking_home_dir(home.0.clone());
    fs.write_file(mountpoint.0.join("bind-hooks"), "src dest\n");

    let result = close::run(&fixture.0, false, &|_| {}, &mut Ports::new(&luks, &fido2, &fs));

    assert!(result.is_ok(), "expected Ok, got {result:?}");
    let bind_teardown = log
        .borrow()
        .iter()
        .position(|c| c == "unmount_bind_hook_destination");
    let umount = log.borrow().iter().position(|c| c == "umount");
    assert!(
        bind_teardown.is_some() && umount.is_some(),
        "expected both calls, log: {:?}",
        log.borrow()
    );
    assert!(
        bind_teardown.unwrap() < umount.unwrap(),
        "bind-hooks destinations must be unmounted before the primary mountpoint, log: {:?}",
        log.borrow()
    );
}

#[test]
fn close_unbinds_bind_hooks_before_running_exec_hooks_close() {
    let log = new_call_log();
    let luks = FakeLuksBackend::passing().with_log(log.clone());
    let fido2 = FakeFido2Backend::passing().with_log(log.clone());

    let fixture = RealFixtureFile::create("close-close-unbind-then-exec-hooks");
    let mountpoint = RealFixtureDir::named("close-unbind-then-exec-hooks-mnt");
    mountpoint.subdir("src");
    let home = RealFixtureDir::named("close-unbind-then-exec-hooks-home-dir");
    home.subdir("dest");

    let fs = FakeFilesystemBackend::passing()
        .with_log(log.clone())
        .with_path_exists(true)
        .with_mount_point_of(mountpoint.0.clone())
        .with_invoking_home_dir(home.0.clone());
    fs.write_file(mountpoint.0.join("bind-hooks"), "src dest\n");
    fs.write_file(mountpoint.0.join("exec-hooks"), "#!/bin/sh\n");

    let result = close::run(&fixture.0, false, &|_| {}, &mut Ports::new(&luks, &fido2, &fs));

    assert!(result.is_ok(), "expected Ok, got {result:?}");
    let unbind = log
        .borrow()
        .iter()
        .position(|c| c == "unmount_bind_hook_destination");
    let hook = log.borrow().iter().position(|c| c == "run_hook");
    assert!(
        unbind.is_some() && hook.is_some(),
        "expected both calls, log: {:?}",
        log.borrow()
    );
    assert!(
        unbind.unwrap() < hook.unwrap(),
        "bind-hooks destinations must be un-bound before exec-hooks close runs, log: {:?}",
        log.borrow()
    );
}

#[test]
fn close_skips_all_hooks_when_skip_hooks_true() {
    let log = new_call_log();
    let luks = FakeLuksBackend::passing().with_log(log.clone());
    let fido2 = FakeFido2Backend::passing().with_log(log.clone());
    let fs = FakeFilesystemBackend::passing()
        .with_log(log.clone())
        .with_path_exists(true);

    let fixture = RealFixtureFile::create("close-close-skip-hooks-true");

    let result = close::run(&fixture.0, true, &|_| {}, &mut Ports::new(&luks, &fido2, &fs));

    assert!(result.is_ok(), "expected Ok, got {result:?}");
    assert_eq!(
        *log.borrow(),
        vec![
            "check_prerequisites".to_string(),
            "umount".to_string(),
            "close".to_string()
        ]
    );
}

// ---- close all
#[test]
fn closes_every_discovered_mapping_using_the_full_close_sequence() {
    let log = new_call_log();
    let mapper_a = mapper("vault-aaaa", "/volume/a.img");
    let mapper_b = mapper("vault-bbbb", "/volume/b.img");

    let luks = FakeLuksBackend::passing()
        .with_log(log.clone())
        .with_open_mappings(vec![mapper_a.clone(), mapper_b.clone()]);
    let fido2 = FakeFido2Backend::passing().with_log(log.clone());
    let fs = FakeFilesystemBackend::passing().with_log(log.clone());

    let result = close_all::run(false, &|_| {}, &mut Ports::new(&luks, &fido2, &fs));

    let results = result.expect("expected Ok");
    assert_eq!(results.len(), 2);
    assert!(
        results.iter().all(|(_, r)| r.is_ok()),
        "expected every mapping to close successfully, got {results:?}"
    );
    assert_eq!(results[0].0.name, mapper_a.name);
    assert_eq!(results[1].0.name, mapper_b.name);

    // Hooks step (mount_point_of + 2x path_exists, both hooks files absent)
    // then umount, then close — once per discovered mapping, in order.
    assert_eq!(
        *log.borrow(),
        vec![
            "check_prerequisites".to_string(),
            "list_open_mappings".to_string(),
            "mount_point_of".to_string(),
            "path_exists".to_string(),
            "path_exists".to_string(),
            "umount".to_string(),
            "close".to_string(),
            "mount_point_of".to_string(),
            "path_exists".to_string(),
            "path_exists".to_string(),
            "umount".to_string(),
            "close".to_string(),
        ]
    );

    // Each port call received the exact mapper `list_open_mappings` handed
    // back — identity, not a re-derived name.
    assert_eq!(luks.last_close().unwrap().name, mapper_b.name);
    assert_eq!(fs.last_umount().unwrap().name, mapper_b.name);
}

#[test]
fn one_mappings_close_failure_does_not_stop_the_batch() {
    let log = new_call_log();
    let mapper_a = mapper("vault-aaaa", "/volume/a.img");
    let mapper_b = mapper("vault-bbbb", "/volume/b.img");

    let luks = FakeLuksBackend::passing()
        .with_log(log.clone())
        .with_open_mappings(vec![mapper_a.clone(), mapper_b.clone()])
        .with_close_failure_for(&mapper_a.name);
    let fido2 = FakeFido2Backend::passing().with_log(log.clone());
    let fs = FakeFilesystemBackend::passing().with_log(log.clone());

    let results = close_all::run(false, &|_| {}, &mut Ports::new(&luks, &fido2, &fs)).expect("expected Ok");

    assert_eq!(results.len(), 2);
    assert!(
        results[0].1.is_err(),
        "expected mapper_a to fail, got {:?}",
        results[0].1
    );
    assert!(
        results[1].1.is_ok(),
        "expected mapper_b to still succeed, got {:?}",
        results[1].1
    );

    // Both mappings' `close` calls must have actually run — the failure on
    // mapper_a's close must not prevent mapper_b's from being attempted.
    assert_eq!(
        log.borrow().iter().filter(|c| *c == "close").count(),
        2,
        "expected close to be attempted for both mappings, log: {:?}",
        log.borrow()
    );
    assert_eq!(
        log.borrow().iter().filter(|c| *c == "umount").count(),
        2,
        "expected umount to be attempted for both mappings, log: {:?}",
        log.borrow()
    );
}

#[test]
fn one_mappings_umount_failure_does_not_stop_the_batch() {
    let log = new_call_log();
    let mapper_a = mapper("vault-aaaa", "/volume/a.img");
    let mapper_b = mapper("vault-bbbb", "/volume/b.img");

    let luks = FakeLuksBackend::passing()
        .with_log(log.clone())
        .with_open_mappings(vec![mapper_a.clone(), mapper_b.clone()]);
    let fido2 = FakeFido2Backend::passing().with_log(log.clone());
    let fs = FakeFilesystemBackend::passing()
        .with_log(log.clone())
        .with_umount_failure_for(&mapper_a.name);

    let results = close_all::run(false, &|_| {}, &mut Ports::new(&luks, &fido2, &fs)).expect("expected Ok");

    assert_eq!(results.len(), 2);
    assert!(
        results[0].1.is_err(),
        "expected mapper_a to fail, got {:?}",
        results[0].1
    );
    assert!(
        results[1].1.is_ok(),
        "expected mapper_b to still succeed, got {:?}",
        results[1].1
    );

    // mapper_a's umount failure must stop its own luks.close (same ordering
    // close::run enforces) but must not stop mapper_b's full sequence.
    assert_eq!(
        log.borrow().iter().filter(|c| *c == "umount").count(),
        2,
        "expected umount to be attempted for both mappings, log: {:?}",
        log.borrow()
    );
    assert_eq!(
        log.borrow().iter().filter(|c| *c == "close").count(),
        1,
        "expected only mapper_b's close to run, log: {:?}",
        log.borrow()
    );
}

#[test]
fn zero_open_mappings_yields_ok_empty_vec_with_no_further_port_calls() {
    let log = new_call_log();
    let luks = FakeLuksBackend::passing().with_log(log.clone());
    let fido2 = FakeFido2Backend::passing().with_log(log.clone());
    let fs = FakeFilesystemBackend::passing().with_log(log.clone());

    let result = close_all::run(false, &|_| {}, &mut Ports::new(&luks, &fido2, &fs));

    assert!(
        matches!(result, Ok(ref v) if v.is_empty()),
        "expected Ok(vec![]), got {result:?}"
    );
    assert_eq!(
        *log.borrow(),
        vec![
            "check_prerequisites".to_string(),
            "list_open_mappings".to_string()
        ]
    );
}

#[test]
fn close_all_preflight_failure_short_circuits_before_list_open_mappings_is_called() {
    let log = new_call_log();
    let luks = FakeLuksBackend::failing(&["cryptsetup"]).with_log(log.clone());
    let fido2 = FakeFido2Backend::passing().with_log(log.clone());
    let fs = FakeFilesystemBackend::passing().with_log(log.clone());

    let result = close_all::run(false, &|_| {}, &mut Ports::new(&luks, &fido2, &fs));

    assert!(matches!(result, Err(DomainError::PreflightFailed(_))));
    assert_eq!(
        *log.borrow(),
        vec!["check_prerequisites".to_string()],
        "no port call beyond preflight's own check_prerequisites should run before preflight fails"
    );
}

#[test]
fn skip_hooks_true_skips_hooks_for_every_mapping_in_the_batch() {
    let log = new_call_log();
    let mapper_a = mapper("vault-aaaa", "/volume/a.img");
    let mapper_b = mapper("vault-bbbb", "/volume/b.img");

    let luks = FakeLuksBackend::passing()
        .with_log(log.clone())
        .with_open_mappings(vec![mapper_a.clone(), mapper_b.clone()]);
    let fido2 = FakeFido2Backend::passing().with_log(log.clone());
    let fs = FakeFilesystemBackend::passing()
        .with_log(log.clone())
        .with_path_exists(true);

    let results = close_all::run(true, &|_| {}, &mut Ports::new(&luks, &fido2, &fs)).expect("expected Ok");

    assert_eq!(results.len(), 2);
    assert!(results.iter().all(|(_, r)| r.is_ok()));

    // No `mount_point_of`/`path_exists` at all — hooks step never runs for
    // either mapping when `skip_hooks` is true.
    assert_eq!(
        *log.borrow(),
        vec![
            "check_prerequisites".to_string(),
            "list_open_mappings".to_string(),
            "umount".to_string(),
            "close".to_string(),
            "umount".to_string(),
            "close".to_string(),
        ]
    );
}

#[test]
fn list_open_mappings_failure_propagates_as_close_alls_own_err_distinct_from_a_per_mapping_err() {
    let log = new_call_log();
    let luks = FakeLuksBackend::passing()
        .with_log(log.clone())
        .with_failure_at("list_open_mappings");
    let fido2 = FakeFido2Backend::passing().with_log(log.clone());
    let fs = FakeFilesystemBackend::passing().with_log(log.clone());

    let result = close_all::run(false, &|_| {}, &mut Ports::new(&luks, &fido2, &fs));

    assert!(result.is_err(), "expected Err, got {result:?}");
    assert_eq!(
        *log.borrow(),
        vec![
            "check_prerequisites".to_string(),
            "list_open_mappings".to_string()
        ]
    );
}

// ---- slam
#[test]
fn escalates_through_sigterm_sighup_sigkill_until_umount_succeeds() {
    let log = new_call_log();
    let mapper_a = mapper("vault-aaaa", "/volume/a.img");

    let luks = FakeLuksBackend::passing()
        .with_log(log.clone())
        .with_open_mappings(vec![mapper_a.clone()]);
    let fido2 = FakeFido2Backend::passing().with_log(log.clone());
    let fs = FakeFilesystemBackend::passing()
        .with_log(log.clone())
        .with_umount_fail_times(2)
        .with_processes_using(vec![Pid(111)]);

    let results = slam::run(&|_| {}, &mut Ports::new(&luks, &fido2, &fs)).expect("expected Ok");

    assert_eq!(results.len(), 1);
    assert!(
        results[0].1.is_ok(),
        "expected mapping to eventually close, got {:?}",
        results[0].1
    );

    assert_eq!(
        fs.signal_calls(),
        vec![(Pid(111), Signal::Sigterm), (Pid(111), Signal::Sighup)],
        "expected escalation to stop as soon as it clears, never reaching SIGKILL"
    );

    // mount_point_of runs once for the hooks step and once, separately, for
    // escalation prep — never once per round.
    assert_eq!(
        log.borrow()
            .iter()
            .filter(|c| *c == "mount_point_of")
            .count(),
        2,
        "expected exactly two mount_point_of calls, log: {:?}",
        log.borrow()
    );
}

#[test]
fn no_holders_remaining_stops_escalation_and_reports_that_mappings_failure() {
    let log = new_call_log();
    let mapper_a = mapper("vault-aaaa", "/volume/a.img");

    let luks = FakeLuksBackend::passing()
        .with_log(log.clone())
        .with_open_mappings(vec![mapper_a.clone()]);
    let fido2 = FakeFido2Backend::passing().with_log(log.clone());
    let fs = FakeFilesystemBackend::passing()
        .with_log(log.clone())
        .with_umount_fail_times(u32::MAX);

    let results = slam::run(&|_| {}, &mut Ports::new(&luks, &fido2, &fs)).expect("expected Ok");

    assert_eq!(results.len(), 1);
    assert!(
        results[0].1.is_err(),
        "expected the mapping to be reported as failed, got {:?}",
        results[0].1
    );
    assert!(
        fs.signal_calls().is_empty(),
        "expected zero signal_process calls when no holders are ever reported, got {:?}",
        fs.signal_calls()
    );
}

#[test]
fn hooks_step_runs_exactly_once_never_repeated_across_escalation_rounds() {
    let log = new_call_log();
    let mapper_a = mapper("vault-aaaa", "/volume/a.img");

    let luks = FakeLuksBackend::passing()
        .with_log(log.clone())
        .with_open_mappings(vec![mapper_a.clone()]);
    let fido2 = FakeFido2Backend::passing().with_log(log.clone());
    let fs = FakeFilesystemBackend::passing()
        .with_log(log.clone())
        .with_umount_fail_times(1)
        .with_processes_using(vec![Pid(222)]);

    let results = slam::run(&|_| {}, &mut Ports::new(&luks, &fido2, &fs)).expect("expected Ok");

    assert!(results[0].1.is_ok(), "got {:?}", results[0].1);

    // The hooks step's own call signature (mount_point_of + 2x path_exists,
    // both hooks files absent) appears exactly once, not duplicated per
    // escalation round.
    assert_eq!(
        log.borrow()
            .iter()
            .filter(|c| *c == "mount_point_of")
            .count(),
        2,
        "expected hooks-step mount_point_of + escalation-prep mount_point_of, log: {:?}",
        log.borrow()
    );
    assert_eq!(
        log.borrow().iter().filter(|c| *c == "path_exists").count(),
        2,
        "expected exactly 2 path_exists calls (exec-hooks, bind-hooks), not repeated per round, log: {:?}",
        log.borrow()
    );
}

#[test]
fn one_mappings_never_clearing_does_not_stop_the_batch() {
    let log = new_call_log();
    let mapper_a = mapper("vault-aaaa", "/volume/a.img");
    let mapper_b = mapper("vault-bbbb", "/volume/b.img");

    let luks = FakeLuksBackend::passing()
        .with_log(log.clone())
        .with_open_mappings(vec![mapper_a.clone(), mapper_b.clone()]);
    let fido2 = FakeFido2Backend::passing().with_log(log.clone());
    let fs = FakeFilesystemBackend::passing()
        .with_log(log.clone())
        .with_umount_failure_for(&mapper_a.name);

    let results = slam::run(&|_| {}, &mut Ports::new(&luks, &fido2, &fs)).expect("expected Ok");

    assert_eq!(results.len(), 2);
    assert!(
        results[0].1.is_err(),
        "expected mapper_a to fail, got {:?}",
        results[0].1
    );
    assert!(
        results[1].1.is_ok(),
        "expected mapper_b to still succeed, got {:?}",
        results[1].1
    );

    // mapper_b's full sequence (hooks, umount, close) still ran.
    assert_eq!(
        log.borrow().iter().filter(|c| *c == "close").count(),
        1,
        "expected only mapper_b's close to run, log: {:?}",
        log.borrow()
    );
}

#[test]
fn zero_open_mappings_yields_ok_empty_vec() {
    let log = new_call_log();
    let luks = FakeLuksBackend::passing().with_log(log.clone());
    let fido2 = FakeFido2Backend::passing().with_log(log.clone());
    let fs = FakeFilesystemBackend::passing().with_log(log.clone());

    let result = slam::run(&|_| {}, &mut Ports::new(&luks, &fido2, &fs));

    assert!(
        matches!(result, Ok(ref v) if v.is_empty()),
        "expected Ok(vec![]), got {result:?}"
    );
    assert_eq!(
        *log.borrow(),
        vec![
            "check_prerequisites".to_string(),
            "list_open_mappings".to_string()
        ]
    );
}

#[test]
fn slam_preflight_failure_short_circuits_before_list_open_mappings_is_called() {
    let log = new_call_log();
    let luks = FakeLuksBackend::failing(&["cryptsetup"]).with_log(log.clone());
    let fido2 = FakeFido2Backend::passing().with_log(log.clone());
    let fs = FakeFilesystemBackend::passing().with_log(log.clone());

    let result = slam::run(&|_| {}, &mut Ports::new(&luks, &fido2, &fs));

    assert!(matches!(result, Err(DomainError::PreflightFailed(_))));
    assert_eq!(
        *log.borrow(),
        vec!["check_prerequisites".to_string()],
        "no port call beyond preflight's own check_prerequisites should run before preflight fails"
    );
}

#[test]
fn list_open_mappings_failure_propagates_as_slams_own_err() {
    let log = new_call_log();
    let luks = FakeLuksBackend::passing()
        .with_log(log.clone())
        .with_failure_at("list_open_mappings");
    let fido2 = FakeFido2Backend::passing().with_log(log.clone());
    let fs = FakeFilesystemBackend::passing().with_log(log.clone());

    let result = slam::run(&|_| {}, &mut Ports::new(&luks, &fido2, &fs));

    assert!(result.is_err(), "expected Err, got {result:?}");
    assert_eq!(
        *log.borrow(),
        vec![
            "check_prerequisites".to_string(),
            "list_open_mappings".to_string()
        ]
    );
}

#[test]
fn lock_contention_on_every_mapping_reports_each_mappings_own_failure_without_stopping_the_batch() {
    let log = new_call_log();
    let mapper_a = mapper("vault-aaaa", "/volume/a.img");
    let mapper_b = mapper("vault-bbbb", "/volume/b.img");

    let luks = FakeLuksBackend::passing()
        .with_log(log.clone())
        .with_open_mappings(vec![mapper_a.clone(), mapper_b.clone()]);
    let fido2 = FakeFido2Backend::passing().with_log(log.clone());
    let fs = FakeFilesystemBackend::passing()
        .with_log(log.clone())
        .with_lock_contention();

    let results = slam::run(&|_| {}, &mut Ports::new(&luks, &fido2, &fs)).expect("expected Ok");

    assert_eq!(results.len(), 2);
    assert!(
        results
            .iter()
            .all(|(_, r)| matches!(r, Err(DomainError::LockContention(_)))),
        "expected every mapping to report its own LockContention, got {results:?}"
    );
    assert_eq!(
        log.borrow()
            .iter()
            .filter(|c| *c == "list_open_mappings")
            .count(),
        1,
        "discovery itself must run exactly once, unaffected by per-mapping lock contention"
    );
}

#[test]
fn acquires_one_lock_per_mapping_using_each_mappings_own_source_path() {
    let log = new_call_log();
    let mapper_a = mapper("vault-aaaa", "/volume/a.img");
    let mapper_b = mapper("vault-bbbb", "/volume/b.img");

    let luks = FakeLuksBackend::passing()
        .with_log(log.clone())
        .with_open_mappings(vec![mapper_a.clone(), mapper_b.clone()]);
    let fido2 = FakeFido2Backend::passing().with_log(log.clone());
    let fs = FakeFilesystemBackend::passing().with_log(log.clone());

    let results = slam::run(&|_| {}, &mut Ports::new(&luks, &fido2, &fs)).expect("expected Ok");

    assert!(results.iter().all(|(_, r)| r.is_ok()));
    assert_eq!(
        fs.lock_target_calls(),
        vec![mapper_a.source_path.clone(), mapper_b.source_path.clone()],
        "expected one lock per mapping, using that mapping's own source_path, not one shared lock for the batch"
    );
}

// ---- enroll
#[test]
fn preflight_failure_short_circuits_before_any_mutating_call() {
    let log = new_call_log();
    let luks = FakeLuksBackend::passing().with_log(log.clone());
    let fido2 =
        FakeFido2Backend::failing(&["fido2-token binary not found on PATH"]).with_log(log.clone());
    let fs = FakeFilesystemBackend::passing().with_log(log.clone());

    let result = enroll::run(
        &String::from("/tmp/hypogaol-unit-test-enroll-does-not-exist"),
        "backup".to_string(),
        Fido2DeviceSelection::Interactive,
        false,
        None,
        &mut Ports::new(&luks, &fido2, &fs),
    );

    match result {
        Err(DomainError::PreflightFailed(missing)) => {
            assert_eq!(
                missing,
                vec!["fido2-token binary not found on PATH".to_string()]
            );
        }
        other => panic!("expected DomainError::PreflightFailed, got {other:?}"),
    }

    assert_eq!(
        *log.borrow(),
        vec!["check_prerequisites".to_string()],
        "no port call beyond preflight's own check_prerequisites should run before preflight fails"
    );
}

#[test]
fn happy_path_calls_enroll_fido2_key_exactly_once_with_the_given_key_label() {
    let log = new_call_log();
    let luks = FakeLuksBackend::passing().with_log(log.clone());
    let fido2 = FakeFido2Backend::passing().with_log(log.clone());
    let fs = FakeFilesystemBackend::passing()
        .with_log(log.clone())
        .with_lock_logging();

    let fixture = RealFixtureFile::create("enroll-happy-path");

    let result = enroll::run(
        &fixture.0,
        "backup".to_string(),
        Fido2DeviceSelection::Interactive,
        false,
        None,
        &mut Ports::new(&luks, &fido2, &fs),
    );

    assert!(result.is_ok(), "expected Ok(()), got {result:?}");
    assert_eq!(
        *log.borrow(),
        vec![
            "check_prerequisites".to_string(),
            "lock_target".to_string(),
            "enroll_fido2_key".to_string()
        ]
    );
}

#[test]
fn enroll_fido2_key_failure_propagates_as_adapter_failure_untouched() {
    let luks = FakeLuksBackend::passing();
    let fido2 = FakeFido2Backend::passing().with_failure_at("enroll_fido2_key");
    let fs = FakeFilesystemBackend::passing();

    let fixture = RealFixtureFile::create("enroll-enroll-failure");

    let result = enroll::run(
        &fixture.0,
        "backup".to_string(),
        Fido2DeviceSelection::Interactive,
        false,
        None,
        &mut Ports::new(&luks, &fido2, &fs),
    );

    match result {
        Err(DomainError::AdapterFailure(msg)) => {
            assert_eq!(msg, "enroll_fido2_key failed (test)");
        }
        other => panic!("expected DomainError::AdapterFailure, got {other:?}"),
    }
}

#[test]
fn enroll_with_user_verification_true_passes_it_to_enroll_fido2_key() {
    let fido2 = FakeFido2Backend::passing();
    let luks = FakeLuksBackend::passing();
    let fs = FakeFilesystemBackend::passing();

    let fixture = RealFixtureFile::create("enroll-user-verification-true");

    let result = enroll::run(
        &fixture.0,
        "backup".to_string(),
        Fido2DeviceSelection::Interactive,
        true,
        None,
        &mut Ports::new(&luks, &fido2, &fs),
    );

    assert!(result.is_ok(), "expected Ok(()), got {result:?}");
    assert_eq!(fido2.user_verification_received(), Some(true));
}

#[test]
fn enroll_without_the_flag_passes_false_unchanged_from_epic_2() {
    let fido2 = FakeFido2Backend::passing();
    let luks = FakeLuksBackend::passing();
    let fs = FakeFilesystemBackend::passing();

    let fixture = RealFixtureFile::create("enroll-user-verification-false");

    let result = enroll::run(
        &fixture.0,
        "backup".to_string(),
        Fido2DeviceSelection::Interactive,
        false,
        None,
        &mut Ports::new(&luks, &fido2, &fs),
    );

    assert!(result.is_ok(), "expected Ok(()), got {result:?}");
    assert_eq!(fido2.user_verification_received(), Some(false));
}

#[test]
fn enroll_with_client_pin_false_passes_it_to_enroll_fido2_key() {
    let fido2 = FakeFido2Backend::passing();
    let luks = FakeLuksBackend::passing();
    let fs = FakeFilesystemBackend::passing();

    let fixture = RealFixtureFile::create("enroll-client-pin-false");

    let result = enroll::run(
        &fixture.0,
        "backup".to_string(),
        Fido2DeviceSelection::Interactive,
        false,
        Some(false),
        &mut Ports::new(&luks, &fido2, &fs),
    );

    assert!(result.is_ok(), "expected Ok(()), got {result:?}");
    assert_eq!(fido2.client_pin_received(), Some(Some(false)));
}

#[test]
fn enroll_with_client_pin_true_passes_it_to_enroll_fido2_key() {
    let fido2 = FakeFido2Backend::passing();
    let luks = FakeLuksBackend::passing();
    let fs = FakeFilesystemBackend::passing();

    let fixture = RealFixtureFile::create("enroll-client-pin-true");

    let result = enroll::run(
        &fixture.0,
        "backup".to_string(),
        Fido2DeviceSelection::Interactive,
        false,
        Some(true),
        &mut Ports::new(&luks, &fido2, &fs),
    );

    assert!(result.is_ok(), "expected Ok(()), got {result:?}");
    assert_eq!(fido2.client_pin_received(), Some(Some(true)));
}

#[test]
fn enroll_without_the_client_pin_flag_passes_none_unchanged() {
    let fido2 = FakeFido2Backend::passing();
    let luks = FakeLuksBackend::passing();
    let fs = FakeFilesystemBackend::passing();

    let fixture = RealFixtureFile::create("enroll-client-pin-not-passed");

    let result = enroll::run(
        &fixture.0,
        "backup".to_string(),
        Fido2DeviceSelection::Interactive,
        false,
        None,
        &mut Ports::new(&luks, &fido2, &fs),
    );

    assert!(result.is_ok(), "expected Ok(()), got {result:?}");
    assert_eq!(fido2.client_pin_received(), Some(None));
}

#[test]
fn locks_the_target_path_as_the_second_statement_after_preflight() {
    let luks = FakeLuksBackend::passing();
    let fido2 = FakeFido2Backend::passing();
    let fs = FakeFilesystemBackend::passing();

    let fixture = RealFixtureFile::create("enroll-lock-target-happy-path");

    let result = enroll::run(
        &fixture.0,
        "backup".to_string(),
        Fido2DeviceSelection::Interactive,
        false,
        None,
        &mut Ports::new(&luks, &fido2, &fs),
    );

    assert!(result.is_ok(), "expected Ok(()), got {result:?}");
    assert_eq!(fs.lock_target_calls(), vec![fixture.0.clone()]);
}

#[test]
fn lock_contention_aborts_before_enroll_fido2_key_is_called() {
    let fido2 = FakeFido2Backend::passing();
    let luks = FakeLuksBackend::passing();
    let fs = FakeFilesystemBackend::passing().with_lock_contention();

    let fixture = RealFixtureFile::create("enroll-lock-contention");

    let result = enroll::run(
        &fixture.0,
        "backup".to_string(),
        Fido2DeviceSelection::Interactive,
        false,
        None,
        &mut Ports::new(&luks, &fido2, &fs),
    );

    assert!(matches!(result, Err(DomainError::LockContention(_))));
    assert_eq!(fido2.user_verification_received(), None);
}

// ---- revoke
#[test]
fn revoke_preflight_failure_short_circuits_before_any_port_call() {
    let log = new_call_log();
    let luks = FakeLuksBackend::passing().with_log(log.clone());
    let fido2 =
        FakeFido2Backend::failing(&["fido2-token binary not found on PATH"]).with_log(log.clone());
    let fs = FakeFilesystemBackend::passing().with_log(log.clone());

    let result = revoke::run("/tmp/tomb", "primary", &mut Ports::new(&luks, &fido2, &fs));

    match result {
        Err(DomainError::PreflightFailed(missing)) => {
            assert_eq!(
                missing,
                vec!["fido2-token binary not found on PATH".to_string()]
            );
        }
        other => panic!("expected DomainError::PreflightFailed, got {other:?}"),
    }

    assert_eq!(
        *log.borrow(),
        vec!["check_prerequisites".to_string()],
        "no port call beyond preflight's own check_prerequisites should run before preflight fails"
    );
}

#[test]
fn happy_path_removes_the_keyslot_matching_the_given_label() {
    let log = new_call_log();
    let luks = FakeLuksBackend::passing()
        .with_log(log.clone())
        .with_keyslots(vec![
            KeyslotInfo {
                keyslot: KeyslotRef(0),
                key_label: "primary".to_string(),
            },
            KeyslotInfo {
                keyslot: KeyslotRef(1),
                key_label: "backup".to_string(),
            },
        ]);
    let fido2 = FakeFido2Backend::passing();
    let fs = FakeFilesystemBackend::passing();

    let result = revoke::run("/tmp/tomb", "backup", &mut Ports::new(&luks, &fido2, &fs));

    assert!(result.is_ok(), "expected Ok(()), got {result:?}");
    assert_eq!(luks.last_removed_keyslot(), Some(KeyslotRef(1)));
    assert_eq!(
        *log.borrow(),
        vec![
            "list_fido2_keyslots".to_string(),
            "list_fido2_keyslots".to_string(),
            "remove_key".to_string()
        ]
    );
}

#[test]
fn targeting_an_unenrolled_label_returns_key_not_found_and_never_removes_anything() {
    let log = new_call_log();
    let luks = FakeLuksBackend::passing()
        .with_log(log.clone())
        .with_keyslots(vec![KeyslotInfo {
            keyslot: KeyslotRef(0),
            key_label: "primary".to_string(),
        }]);
    let fido2 = FakeFido2Backend::passing();
    let fs = FakeFilesystemBackend::passing();

    let result = revoke::run("/tmp/tomb", "nonexistent", &mut Ports::new(&luks, &fido2, &fs));

    match result {
        Err(DomainError::KeyNotFound(label)) => assert_eq!(label, "nonexistent"),
        other => panic!("expected DomainError::KeyNotFound, got {other:?}"),
    }

    assert_eq!(*log.borrow(), vec!["list_fido2_keyslots".to_string()]);
}

#[test]
fn revoking_the_sole_remaining_keyslot_returns_last_keyslot_guard() {
    let log = new_call_log();
    let luks = FakeLuksBackend::passing()
        .with_log(log.clone())
        .with_keyslots(vec![KeyslotInfo {
            keyslot: KeyslotRef(0),
            key_label: "primary".to_string(),
        }]);
    let fido2 = FakeFido2Backend::passing();
    let fs = FakeFilesystemBackend::passing();

    let result = revoke::run("/tmp/tomb", "primary", &mut Ports::new(&luks, &fido2, &fs));

    assert!(matches!(result, Err(DomainError::LastKeyslotGuard)));
    assert_eq!(
        *log.borrow(),
        vec![
            "list_fido2_keyslots".to_string(),
            "list_fido2_keyslots".to_string()
        ]
    );
}

#[test]
fn remove_key_failure_propagates_as_adapter_failure_untouched() {
    let luks = FakeLuksBackend::passing()
        .with_keyslots(vec![
            KeyslotInfo {
                keyslot: KeyslotRef(0),
                key_label: "primary".to_string(),
            },
            KeyslotInfo {
                keyslot: KeyslotRef(1),
                key_label: "backup".to_string(),
            },
        ])
        .with_failure_at("remove_key");
    let fido2 = FakeFido2Backend::passing();
    let fs = FakeFilesystemBackend::passing();

    let result = revoke::run("/tmp/tomb", "primary", &mut Ports::new(&luks, &fido2, &fs));

    match result {
        Err(DomainError::AdapterFailure(msg)) => {
            assert_eq!(msg, "remove_key failed (test)");
        }
        other => panic!("expected DomainError::AdapterFailure, got {other:?}"),
    }
}

// ---- info
#[test]
fn info_preflight_failure_short_circuits_before_any_port_call() {
    let log = new_call_log();
    let luks = FakeLuksBackend::passing().with_log(log.clone());
    let fido2 =
        FakeFido2Backend::failing(&["fido2-token binary not found on PATH"]).with_log(log.clone());
    let fs = FakeFilesystemBackend::passing().with_log(log.clone());

    let result = info::run("/tmp/volume", &mut Ports::new(&luks, &fido2, &fs));

    match result {
        Err(DomainError::PreflightFailed(missing)) => {
            assert_eq!(
                missing,
                vec!["fido2-token binary not found on PATH".to_string()]
            );
        }
        other => panic!("expected DomainError::PreflightFailed, got {other:?}"),
    }

    assert_eq!(
        *log.borrow(),
        vec!["check_prerequisites".to_string()],
        "no port call beyond preflight's own check_prerequisites should run before preflight fails"
    );
}

#[test]
fn happy_path_returns_every_enrolled_keyslots_label() {
    let log = new_call_log();
    let keyslots = vec![
        KeyslotInfo {
            keyslot: KeyslotRef(0),
            key_label: "primary".to_string(),
        },
        KeyslotInfo {
            keyslot: KeyslotRef(1),
            key_label: "backup".to_string(),
        },
    ];
    let luks = FakeLuksBackend::passing()
        .with_log(log.clone())
        .with_keyslots(keyslots.clone());
    let fido2 = FakeFido2Backend::passing();
    let fs = FakeFilesystemBackend::passing();

    let result = info::run("/tmp/volume", &mut Ports::new(&luks, &fido2, &fs));

    match result {
        Ok(returned) => assert_eq!(returned, keyslots),
        other => panic!("expected Ok(keyslots), got {other:?}"),
    }
    assert_eq!(*log.borrow(), vec!["list_fido2_keyslots".to_string()]);
}

#[test]
fn empty_volume_returns_an_empty_list() {
    let luks = FakeLuksBackend::passing().with_keyslots(vec![]);
    let fido2 = FakeFido2Backend::passing();
    let fs = FakeFilesystemBackend::passing();

    let result = info::run("/tmp/volume", &mut Ports::new(&luks, &fido2, &fs));

    match result {
        Ok(returned) => assert_eq!(returned, Vec::<KeyslotInfo>::new()),
        other => panic!("expected Ok(vec![]), got {other:?}"),
    }
}

// ---- hooks
#[test]
fn parse_bind_hooks_reads_two_column_whitespace_separated_lines() {
    let content = ".gnupg .gnupg\nProjects/secret  Documents/secret\n";
    let entries = parse_bind_hooks(content);

    assert_eq!(
        entries,
        vec![
            BindHookEntry {
                source_relative: ".gnupg".to_string(),
                dest_relative: ".gnupg".to_string(),
            },
            BindHookEntry {
                source_relative: "Projects/secret".to_string(),
                dest_relative: "Documents/secret".to_string(),
            },
        ]
    );
}

#[test]
fn parse_bind_hooks_skips_blank_and_malformed_lines() {
    let content = "\n.gnupg .gnupg\n   \none-token-only\nsource dest extra-token\n.ssh .ssh\n";
    let entries = parse_bind_hooks(content);

    assert_eq!(
        entries,
        vec![
            BindHookEntry {
                source_relative: ".gnupg".to_string(),
                dest_relative: ".gnupg".to_string(),
            },
            BindHookEntry {
                source_relative: ".ssh".to_string(),
                dest_relative: ".ssh".to_string(),
            },
        ]
    );
}

#[test]
fn exec_hook_rejection_none_when_all_checks_pass() {
    assert_eq!(exec_hook_rejection(&passing_meta()), None);
}

#[test]
fn exec_hook_rejection_symlink_before_other_checks() {
    let meta = HookFileMeta {
        is_symlink: true,
        ..passing_meta()
    };
    assert_eq!(
        exec_hook_rejection(&meta),
        Some(HookRejectionReason::NotARegularFile)
    );
}

#[test]
fn exec_hook_rejection_not_a_regular_file() {
    let meta = HookFileMeta {
        is_regular_file: false,
        ..passing_meta()
    };
    assert_eq!(
        exec_hook_rejection(&meta),
        Some(HookRejectionReason::NotARegularFile)
    );
}

#[test]
fn exec_hook_rejection_not_executable() {
    let meta = HookFileMeta {
        is_executable: false,
        ..passing_meta()
    };
    assert_eq!(
        exec_hook_rejection(&meta),
        Some(HookRejectionReason::NotExecutable)
    );
}

#[test]
fn exec_hook_rejection_wrong_owner() {
    let meta = HookFileMeta {
        owned_by_invoking_user_or_root: false,
        ..passing_meta()
    };
    assert_eq!(
        exec_hook_rejection(&meta),
        Some(HookRejectionReason::WrongOwner)
    );
}

#[test]
fn exec_hook_rejection_world_writable() {
    let meta = HookFileMeta {
        is_world_writable: true,
        ..passing_meta()
    };
    assert_eq!(
        exec_hook_rejection(&meta),
        Some(HookRejectionReason::WorldWritable)
    );
}

#[test]
fn exec_hook_rejection_checks_fire_in_ac3_order_when_multiple_violations_are_true() {
    let meta = HookFileMeta {
        is_regular_file: false,
        is_symlink: true,
        is_executable: false,
        owned_by_invoking_user_or_root: false,
        is_world_writable: true,
    };
    assert_eq!(
        exec_hook_rejection(&meta),
        Some(HookRejectionReason::NotARegularFile)
    );
}




#[test]
fn resolve_bind_hook_entry_rejects_dot_dot_escaping_volume_root() {
    let volume_root = RealFixtureDir::named("hooks-dot-dot-volume-root");
    let home = RealFixtureDir::named("hooks-dot-dot-home");
    home.subdir("dest");

    // ".." off the volume root resolves to its real parent (the shared temp
    // dir) — a real, existing path, but outside `volume_root`.
    let entry = BindHookEntry {
        source_relative: "..".to_string(),
        dest_relative: "dest".to_string(),
    };
    let fs = FakeFilesystemBackend::passing().with_path_exists(true);

    let result = resolve_bind_hook_entry(&entry, volume_root.text(), home.text(), &mut Ports::new(&FakeLuksBackend::passing(), &FakeFido2Backend::passing(), &fs));

    assert_eq!(result, Err(BindHookSkipReason::SourceEscapesVolumeRoot));
}

#[test]
fn resolve_bind_hook_entry_rejects_absolute_path_escaping_home() {
    let volume_root = RealFixtureDir::named("hooks-abs-path-volume-root");
    volume_root.subdir("source");
    let home = RealFixtureDir::named("hooks-abs-path-home");
    let outside = RealFixtureDir::named("hooks-abs-path-outside");

    // An absolute `dest_relative` makes `Path::join` discard `home_dir`
    // entirely and resolve straight to the absolute path — the same
    // mechanism that rejects an absolute-path escape in practice.
    let entry = BindHookEntry {
        source_relative: "source".to_string(),
        dest_relative: outside.0.to_string_lossy().into_owned(),
    };
    let fs = FakeFilesystemBackend::passing().with_path_exists(true);

    let result = resolve_bind_hook_entry(&entry, volume_root.text(), home.text(), &mut Ports::new(&FakeLuksBackend::passing(), &FakeFido2Backend::passing(), &fs));

    assert_eq!(result, Err(BindHookSkipReason::DestEscapesHome));
}

#[test]
fn resolve_bind_hook_entry_rejects_missing_source() {
    let volume_root = RealFixtureDir::named("hooks-missing-source-volume-root");
    let home = RealFixtureDir::named("hooks-missing-source-home");
    home.subdir("dest");

    let entry = BindHookEntry {
        source_relative: "does-not-exist".to_string(),
        dest_relative: "dest".to_string(),
    };
    // Source check (first) reports missing — dest is never reached.
    let fs = FakeFilesystemBackend::passing().with_path_exists_sequence(vec![false]);

    let result = resolve_bind_hook_entry(&entry, volume_root.text(), home.text(), &mut Ports::new(&FakeLuksBackend::passing(), &FakeFido2Backend::passing(), &fs));

    assert_eq!(result, Err(BindHookSkipReason::SourceMissing));
}

#[test]
fn resolve_bind_hook_entry_rejects_missing_dest() {
    let volume_root = RealFixtureDir::named("hooks-missing-dest-volume-root");
    volume_root.subdir("source");
    let home = RealFixtureDir::named("hooks-missing-dest-home");

    let entry = BindHookEntry {
        source_relative: "source".to_string(),
        dest_relative: "does-not-exist".to_string(),
    };
    let fs = FakeFilesystemBackend::passing().with_path_exists_sequence(vec![true, false]);

    let result = resolve_bind_hook_entry(&entry, volume_root.text(), home.text(), &mut Ports::new(&FakeLuksBackend::passing(), &FakeFido2Backend::passing(), &fs));

    assert_eq!(result, Err(BindHookSkipReason::DestMissing));
}

// ---- workflows

#[test]
fn create_run_stops_at_preflight_before_reaching_its_own_todo() {
    let luks = FakeLuksBackend::failing(&["cryptsetup"]);
    let fido2 = FakeFido2Backend::passing();
    let fs = FakeFilesystemBackend::passing();

    let target = CreateTarget::File {
        path: String::from("/tmp/does-not-matter"),
        size: 1024,
    };

    let result = create::run(
        target,
        Filesystem::Ext4,
        false,
        None,
        None,
        false,
        Fido2DeviceSelection::Interactive,
        &no_progress,
        &mut Ports::new(&luks, &fido2, &fs),
    );

    assert!(matches!(result, Err(DomainError::PreflightFailed(_))));
}

#[test]
fn unlock_run_stops_at_preflight_before_reaching_its_own_todo() {
    let luks = FakeLuksBackend::failing(&["cryptsetup"]);
    let fido2 = FakeFido2Backend::passing();
    let fs = FakeFilesystemBackend::passing();

    let result = unlock::run(
        "/tmp/does-not-matter",
        false,
        false,
        &|_| {},
        &mut Ports::new(&luks, &fido2, &fs),
    );

    assert!(matches!(result, Err(DomainError::PreflightFailed(_))));
}

#[test]
fn close_run_stops_at_preflight_before_touching_any_port() {
    let luks = FakeLuksBackend::failing(&["cryptsetup"]);
    let fido2 = FakeFido2Backend::passing();
    let fs = FakeFilesystemBackend::passing();

    let result = close::run(
        "/tmp/does-not-matter",
        false,
        &|_| {},
        &mut Ports::new(&luks, &fido2, &fs),
    );

    assert!(matches!(result, Err(DomainError::PreflightFailed(_))));
}

#[test]
fn resize_run_stops_at_preflight_before_touching_any_port() {
    let luks = FakeLuksBackend::failing(&["cryptsetup"]);
    let fido2 = FakeFido2Backend::passing();
    let fs = FakeFilesystemBackend::passing();

    let result = resize::run(
        "/tmp/does-not-matter",
        1024,
        &no_progress,
        &mut Ports::new(&luks, &fido2, &fs),
    );

    assert!(matches!(result, Err(DomainError::PreflightFailed(_))));
}

// ---- mapping name

#[test]
fn same_path_produces_the_same_name_every_time() {
    let fs = FakeFilesystemBackend::passing();
    let first = mapping_name::mapping_name(&mut Ports::new(&FakeLuksBackend::passing(), &FakeFido2Backend::passing(), &fs), "/tmp").expect("canonicalize should succeed");
    let second = mapping_name::mapping_name(&mut Ports::new(&FakeLuksBackend::passing(), &FakeFido2Backend::passing(), &fs), "/tmp").expect("canonicalize should succeed");

    assert_eq!(first, second);
    assert!(first.starts_with("vault-"));
}

#[test]
fn nonexistent_path_returns_an_error_instead_of_silently_falling_back() {
    let missing = "/tmp/volume-fido2-mapping-name-does-not-exist";
    let fs = FakeFilesystemBackend::passing().with_missing_path(missing);

    let result = mapping_name::mapping_name(&mut Ports::new(&FakeLuksBackend::passing(), &FakeFido2Backend::passing(), &fs), missing);

    assert!(
        result.is_err(),
        "expected an error for a path that cannot be canonicalized, got {result:?}"
    );
}

#[test]
fn mapping_name_is_the_fnv1a_hash_of_the_canonical_path_in_sixteen_hex_digits() {
    let fs = FakeFilesystemBackend::passing();
    assert_eq!(
        mapping_name::mapping_name(&mut Ports::new(&FakeLuksBackend::passing(), &FakeFido2Backend::passing(), &fs), "/tmp").unwrap(),
        "vault-7f7de39c4bcebddb"
    );
    assert_eq!(
        mapping_name::mapping_name(&mut Ports::new(&FakeLuksBackend::passing(), &FakeFido2Backend::passing(), &fs), "/tmp/./x/..//").unwrap(),
        "vault-7f7de39c4bcebddb",
        "paths with the same canonical form share one mapping name"
    );
}

#[test]
fn mapping_name_failure_names_the_path_and_the_reason() {
    let fs = FakeFilesystemBackend::passing().with_missing_path("/no/such/path");
    match mapping_name::mapping_name(&mut Ports::new(&FakeLuksBackend::passing(), &FakeFido2Backend::passing(), &fs), "/no/such/path") {
        Err(DomainError::AdapterFailure(message)) => assert_eq!(
            message,
            "failed to canonicalize /no/such/path: No such file or directory (os error 2)"
        ),
        other => panic!("expected AdapterFailure, got {other:?}"),
    }
}

#[test]
fn fnv1a_hash_matches_known_values() {
    assert_eq!(mapping_name::fnv1a_hash(b""), 0xcbf29ce484222325);
    assert_eq!(mapping_name::fnv1a_hash(b"a"), 0xaf63dc4c8601ec8c);
}

#[test]
fn lock_target_path_of_an_existing_file_returns_that_files_canonical_path() {
    let fs = FakeFilesystemBackend::passing();
    let path = "/tmp/hypogaol-unit-test-lock-target-path-existing-file";

    let result = mapping_name::lock_target_path(&mut Ports::new(&FakeLuksBackend::passing(), &FakeFido2Backend::passing(), &fs), path);

    assert_eq!(result.unwrap(), path);
}

#[test]
fn lock_target_path_of_a_nonexistent_path_returns_its_parents_canonical_path() {
    let missing = "/tmp/hypogaol-unit-test-lock-target-path-does-not-exist";
    let fs = FakeFilesystemBackend::passing().with_missing_path(missing);

    let result = mapping_name::lock_target_path(&mut Ports::new(&FakeLuksBackend::passing(), &FakeFido2Backend::passing(), &fs), missing);

    assert_eq!(result.unwrap(), "/tmp");
}

#[test]
fn lock_target_path_of_a_bare_relative_filename_falls_back_to_the_current_directory() {
    let missing = "hypogaol-unit-test-lock-target-path-bare-relative-filename-does-not-exist";
    let fs = FakeFilesystemBackend::passing().with_missing_path(missing);

    let result = mapping_name::lock_target_path(&mut Ports::new(&FakeLuksBackend::passing(), &FakeFido2Backend::passing(), &fs), missing);

    let expected_parent = fs.canonicalize(".").expect("current directory should canonicalize");
    assert_eq!(result.unwrap(), expected_parent);
}

#[test]
fn lock_target_path_of_a_path_whose_parent_also_does_not_exist_returns_an_adapter_failure() {
    let parent = "/tmp/hypogaol-unit-test-lock-target-path-missing-parent-dir-does-not-exist";
    let missing = "/tmp/hypogaol-unit-test-lock-target-path-missing-parent-dir-does-not-exist/also-does-not-exist";
    let fs = FakeFilesystemBackend::passing()
        .with_missing_path(missing)
        .with_missing_path(parent);

    let result = mapping_name::lock_target_path(&mut Ports::new(&FakeLuksBackend::passing(), &FakeFido2Backend::passing(), &fs), missing);

    match result {
        Err(DomainError::AdapterFailure(message)) => assert_eq!(
            message,
            format!("failed to canonicalize {missing} or its parent directory: No such file or directory (os error 2)")
        ),
        other => panic!("expected an error when neither the path nor its parent exist, got {other:?}"),
    }
}

#[test]
fn lock_fallback_directory_follows_path_parent() {
    assert_eq!(mapping_name::fallback_dir("/a/b/c.img"), "/a/b");
    assert_eq!(mapping_name::fallback_dir("/a/b/"), "/a");
    assert_eq!(mapping_name::fallback_dir("/a/b/."), "/a");
    assert_eq!(mapping_name::fallback_dir("/x"), "/");
    assert_eq!(mapping_name::fallback_dir("//x"), "/");
    assert_eq!(mapping_name::fallback_dir("a//b"), "a");
    assert_eq!(mapping_name::fallback_dir("./x"), ".");
    assert_eq!(mapping_name::fallback_dir("volume.img"), ".");
    assert_eq!(mapping_name::fallback_dir("/"), ".");
    assert_eq!(mapping_name::fallback_dir(""), ".");
}

#[test]
fn create_threads_client_pin_unchanged_to_bootstrap_enrollment() {
    for choice in [Some(true), Some(false), None] {
        let luks = FakeLuksBackend::passing();
        let fido2 = FakeFido2Backend::passing();
        let fs = FakeFilesystemBackend::passing();
        let fixture = RealFixtureFile::create("create-client-pin-threading");
        let target = CreateTarget::File {
            path: fixture.0.clone(),
            size: MIN_VOLUME_SIZE_BYTES,
        };
        let result = create::run(
            target,
            Filesystem::Ext4,
            false,
            choice,
            None,
            false,
            Fido2DeviceSelection::Interactive,
            &no_progress,
            &mut Ports::new(&luks, &fido2, &fs),
        );
        assert!(result.is_ok(), "expected Ok(()), got {result:?}");
        assert_eq!(fido2.client_pin_received(), Some(choice));
    }
}

#[test]
fn unlock_refusing_exec_hooks_reports_the_file_and_the_first_broken_rule() {
    let luks = FakeLuksBackend::passing();
    let fido2 = FakeFido2Backend::passing();
    let fixture = RealFixtureFile::create("unlock-exec-hooks-rejection-detail");
    let expected_name =
        mapping_name::mapping_name(&mut Ports::new(&FakeLuksBackend::passing(), &FakeFido2Backend::passing(), &FakeFilesystemBackend::passing()), &fixture.0).unwrap();
    let mountpoint = RealFixtureDir::create(fake_mountpoint_for(&expected_name));
    let meta = HookFileMeta {
        is_regular_file: true,
        is_symlink: false,
        is_executable: true,
        owned_by_invoking_user_or_root: true,
        is_world_writable: true,
    };
    let fs = FakeFilesystemBackend::passing()
        .with_path_exists(true)
        .with_hook_file_metadata(meta);
    fs.write_file(mountpoint.0.join("exec-hooks"), "#!/bin/sh\n");

    let result = unlock::run(&fixture.0, false, false, &|_| {}, &mut Ports::new(&luks, &fido2, &fs));

    match result {
        Err(DomainError::HookRejected { path, reason }) => {
            assert!(path.ends_with("/exec-hooks"), "unexpected path {path}");
            assert_eq!(reason, HookRejectionReason::WorldWritable);
        }
        other => panic!("expected HookRejected, got {other:?}"),
    }
    assert!(luks.last_close().is_some());
}

#[test]
fn resize_refuses_a_backing_file_that_is_not_a_regular_file_before_opening_anything() {
    let log = new_call_log();
    let luks = FakeLuksBackend::passing().with_log(log.clone());
    let fido2 = FakeFido2Backend::passing().with_log(log.clone());
    let fixture = RealFixtureFile::create("resize-symlinked-backing-file");
    let fs = FakeFilesystemBackend::passing()
        .with_log(log.clone())
        .with_is_block_device(false)
        .with_irregular_path(&fixture.0);
    fs.set_file_len(&fixture.0, 4096);

    let result = resize::run(&fixture.0, 8192, &no_progress, &mut Ports::new(&luks, &fido2, &fs));

    match result {
        Err(DomainError::AdapterFailure(m)) => assert_eq!(
            m,
            format!("{} is not a regular file — refusing to grow it", fixture.0)
        ),
        other => panic!("expected AdapterFailure, got {other:?}"),
    }
    assert!(!log.borrow().contains(&"open".to_string()));
    assert!(!log.borrow().contains(&"read_filesystem".to_string()));
}
