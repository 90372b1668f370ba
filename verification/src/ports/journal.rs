//! The three ports as one bundle that keeps a ghost journal of every call
//! made through it, with its arguments and its answer, and of every stage
//! reported to a workflow's progress callback through it. The workflows reach
//! the ports only through this bundle, so the journal is the complete,
//! ordered record of what a workflow asked of them, and their contracts
//! can speak of order: what comes first, what never happens, what happens
//! once.
use vstd::prelude::*;

use crate::domain::errors::DomainError;
use crate::domain::hooks::rejection_of;
use crate::domain::keyslot_guard::removal_allowed;
use crate::domain::progress::{CreateStage, ResizeStage};
use crate::domain::types::{
    Filesystem, HookFileMeta, KeyMetadata, KeyslotInfo, KeyslotRef, MapperHandle, Pid, Signal,
};
use crate::ports::fido2_backend::{Fido2Backend, Fido2DeviceSelection};
use crate::ports::filesystem_backend::FilesystemBackend;
use crate::ports::luks_backend::LuksBackend;

verus! {

/// One call made through a [`Ports`] bundle: its arguments (by view) and
/// what the port answered (`LockTarget` records only whether the lock was
/// taken); or a stage of `create` or `resize` reported to the caller's
/// progress callback.
pub enum PortCall {
    LuksPrerequisites(Result<(), Vec<String>>),
    HasLuks2Header(Seq<char>, Result<bool, DomainError>),
    HasMarkerToken(Seq<char>, Result<bool, DomainError>),
    RemoveMarkerToken(Seq<char>, Result<(), DomainError>),
    CloseStaleMapping(Seq<char>, Result<(), DomainError>),
    BootstrapFormatAndOpen(Seq<char>, Seq<char>, u64, Filesystem, Result<MapperHandle, DomainError>),
    ListFido2Keyslots(Seq<char>, Result<Vec<KeyslotInfo>, DomainError>),
    RemoveKey(Seq<char>, KeyslotRef, Result<(), DomainError>),
    Close(MapperHandle, Result<(), DomainError>),
    Open(Seq<char>, Seq<char>, bool, Result<MapperHandle, DomainError>),
    Resize(MapperHandle, Result<(), DomainError>),
    ReadFilesystem(Seq<char>, Result<Filesystem, DomainError>),
    ListOpenMappings(Result<Vec<MapperHandle>, DomainError>),
    Fido2Prerequisites(Result<(), Vec<String>>),
    EnrollFido2Key(MapperHandle, KeyMetadata, Fido2DeviceSelection, bool, Option<bool>, Result<(), DomainError>),
    FsPrerequisites(Option<Filesystem>, Result<(), Vec<String>>),
    LockTarget(Seq<char>, bool),
    Canonicalize(Seq<char>, Result<String, String>),
    ReadTextFile(Seq<char>, Option<String>),
    PathExists(Seq<char>, bool),
    IsBlockDevice(Seq<char>, Result<bool, DomainError>),
    DeviceCapacity(Seq<char>, Result<u64, DomainError>),
    IsRegularFile(Seq<char>, Result<bool, DomainError>),
    FileLen(Seq<char>, Result<u64, DomainError>),
    SetBackingFileSize(Seq<char>, u64, Result<(), DomainError>),
    Mkfs(MapperHandle, Filesystem, Result<(), DomainError>),
    Growfs(MapperHandle, Filesystem, Result<(), DomainError>),
    FilesystemSize(MapperHandle, Filesystem, Result<u64, DomainError>),
    RemoveBackingFile(Seq<char>, Result<(), DomainError>),
    Mount(MapperHandle, bool, Result<String, DomainError>),
    Umount(MapperHandle, Result<(), DomainError>),
    BindMount(Seq<char>, Seq<char>, Result<(), DomainError>),
    HookFileMetadata(Seq<char>, Result<HookFileMeta, DomainError>),
    RunHook(Seq<char>, Seq<String>, Result<Option<i32>, DomainError>),
    InvokingHomeDir(Result<String, DomainError>),
    MountPointOf(MapperHandle, Result<String, DomainError>),
    UnmountBindHookDestination(Seq<char>, Result<(), DomainError>),
    ProcessesUsing(Seq<char>, Result<Vec<Pid>, DomainError>),
    SignalProcess(Pid, Signal, Result<(), DomainError>),
    EscalationPause,
    ScaffoldHookTemplates(Seq<char>, Result<(), DomainError>),
    CreateStageStarted(CreateStage),
    ResizeStageStarted(ResizeStage),
}

/// `after` is `before` with more calls appended.
pub open spec fn extends(before: Seq<PortCall>, after: Seq<PortCall>) -> bool {
    &&& before.len() <= after.len()
    &&& forall|i: int| 0 <= i < before.len() ==> #[trigger] after[i] == before[i]
}

/// The calls `after` appended to `before`.
pub open spec fn since(before: Seq<PortCall>, after: Seq<PortCall>) -> Seq<PortCall> {
    after.subrange(before.len() as int, after.len() as int)
}

/// No call of `log` from index `from` up to (not including) `to` is of
/// `kind`.
pub open spec fn none_between(
    log: Seq<PortCall>,
    from: int,
    to: int,
    kind: spec_fn(PortCall) -> bool,
) -> bool {
    forall|i: int| from <= i < to ==> !kind(#[trigger] log[i])
}

/// An empty stretch holds no call of any kind.
pub proof fn lemma_none_between_empty(log: Seq<PortCall>, kind: spec_fn(PortCall) -> bool)
    ensures
        none_between(log, log.len() as int, log.len() as int, kind),
{
}

/// A call not of `kind`, appended, keeps the journal free of `kind` from
/// `from` on.
pub proof fn lemma_none_between_push(
    log: Seq<PortCall>,
    from: int,
    c: PortCall,
    kind: spec_fn(PortCall) -> bool,
)
    requires
        0 <= from <= log.len(),
        none_between(log, from, log.len() as int, kind),
        !kind(c),
    ensures
        none_between(log.push(c), from, log.len() + 1int, kind),
{
    assert forall|i: int| from <= i < log.len() + 1 implies !kind(#[trigger] log.push(c)[i]) by {
        if i < log.len() {
            assert(log.push(c)[i] == log[i]);
        }
    }
}

/// Two stretches free of `kind`, one extending the other, make one.
pub proof fn lemma_none_between_extend(
    a: Seq<PortCall>,
    b: Seq<PortCall>,
    from: int,
    kind: spec_fn(PortCall) -> bool,
)
    requires
        0 <= from <= a.len(),
        extends(a, b),
        none_between(a, from, a.len() as int, kind),
        none_between(b, a.len() as int, b.len() as int, kind),
    ensures
        none_between(b, from, b.len() as int, kind),
{
    assert forall|i: int| from <= i < b.len() implies !kind(#[trigger] b[i]) by {
        if i < a.len() {
            assert(b[i] == a[i]);
        }
    }
}

/// Calls that release a mounted volume: signalling its holders, unmounting
/// it, re-locking its mapping.
pub open spec fn releasing() -> spec_fn(PortCall) -> bool {
    |c: PortCall| c is SignalProcess || c is Umount || c is Close
}

/// Calls that unmount or close something.
pub open spec fn teardown() -> spec_fn(PortCall) -> bool {
    |c: PortCall| c is Close || c is Umount || c is UnmountBindHookDestination
}

/// Calls that only the hooks step of an unlock makes: reading the invoking
/// user's home, looking up and reading the hook files, bind-mounting, and
/// inspecting or running `exec-hooks`.
pub open spec fn hook_work() -> spec_fn(PortCall) -> bool {
    |c: PortCall|
        c is InvokingHomeDir || c is PathExists || c is ReadTextFile || c is BindMount
            || c is HookFileMetadata || c is RunHook
}

/// Calls that look a path up without changing anything.
pub open spec fn lookup() -> spec_fn(PortCall) -> bool {
    |c: PortCall| c is PathExists || c is Canonicalize
}

/// The LUKS, FIDO2 and filesystem ports a workflow drives, and the journal
/// of the calls made through them so far.
pub struct Ports<'a, L, F, S> {
    luks: &'a L,
    fido2: &'a F,
    fs: &'a S,
    log: Ghost<Seq<PortCall>>,
}

impl<'a, L, F, S> Ports<'a, L, F, S> {
    pub closed spec fn luks(&self) -> &'a L {
        self.luks
    }

    pub closed spec fn fido2(&self) -> &'a F {
        self.fido2
    }

    pub closed spec fn fs(&self) -> &'a S {
        self.fs
    }

    /// Every call made through this bundle, oldest first.
    pub closed spec fn log(&self) -> Seq<PortCall> {
        self.log@
    }

    /// `self` drives the same three ports as `other`.
    pub open spec fn keeps(self, other: Self) -> bool {
        &&& self.luks() == other.luks()
        &&& self.fido2() == other.fido2()
        &&& self.fs() == other.fs()
    }

    /// Bundles the three ports, with an empty journal.
    pub fn new(luks: &'a L, fido2: &'a F, fs: &'a S) -> (p: Self)
        ensures
            p.luks() == luks,
            p.fido2() == fido2,
            p.fs() == fs,
            p.log() == Seq::<PortCall>::empty(),
    {
        Ports { luks, fido2, fs, log: Ghost(Seq::empty()) }
    }
}

impl<'a, L: LuksBackend, F: Fido2Backend, S: FilesystemBackend> Ports<'a, L, F, S> {
    /// Asks the LUKS port (`check_prerequisites`), and records the call with its answer.
    pub fn luks_check_prerequisites(&mut self) -> (r: Result<(), Vec<String>>)
        ensures
            final(self).keeps(*old(self)),
            final(self).log() == old(self).log().push(PortCall::LuksPrerequisites(r)),
            call_ensures(L::check_prerequisites, (old(self).luks(),), r),
    {
        let r = self.luks.check_prerequisites();
        self.log = Ghost(self.log@.push(PortCall::LuksPrerequisites(r)));
        r
    }

    /// Asks the port (`has_luks2_header`), and records the call with its answer.
    pub fn has_luks2_header(&mut self, path: &str) -> (r: Result<bool, DomainError>)
        ensures
            final(self).keeps(*old(self)),
            final(self).log() == old(self).log().push(PortCall::HasLuks2Header(path@, r)),
            call_ensures(L::has_luks2_header, (old(self).luks(), path), r),
    {
        let r = self.luks.has_luks2_header(path);
        self.log = Ghost(self.log@.push(PortCall::HasLuks2Header(path@, r)));
        r
    }

    /// Asks the port (`has_marker_token`), and records the call with its answer.
    pub fn has_marker_token(&mut self, path: &str) -> (r: Result<bool, DomainError>)
        ensures
            final(self).keeps(*old(self)),
            final(self).log() == old(self).log().push(PortCall::HasMarkerToken(path@, r)),
            call_ensures(L::has_marker_token, (old(self).luks(), path), r),
    {
        let r = self.luks.has_marker_token(path);
        self.log = Ghost(self.log@.push(PortCall::HasMarkerToken(path@, r)));
        r
    }

    /// Asks the port (`remove_marker_token`), and records the call with its answer.
    pub fn remove_marker_token(&mut self, path: &str) -> (r: Result<(), DomainError>)
        ensures
            final(self).keeps(*old(self)),
            final(self).log() == old(self).log().push(PortCall::RemoveMarkerToken(path@, r)),
            call_ensures(L::remove_marker_token, (old(self).luks(), path), r),
    {
        let r = self.luks.remove_marker_token(path);
        self.log = Ghost(self.log@.push(PortCall::RemoveMarkerToken(path@, r)));
        r
    }

    /// Asks the port (`close_stale_mapping`), and records the call with its answer.
    pub fn close_stale_mapping(&mut self, name: &str) -> (r: Result<(), DomainError>)
        ensures
            final(self).keeps(*old(self)),
            final(self).log() == old(self).log().push(PortCall::CloseStaleMapping(name@, r)),
            call_ensures(L::close_stale_mapping, (old(self).luks(), name), r),
    {
        let r = self.luks.close_stale_mapping(name);
        self.log = Ghost(self.log@.push(PortCall::CloseStaleMapping(name@, r)));
        r
    }

    /// Asks the port (`bootstrap_format_and_open`), and records the call with its answer.
    pub fn bootstrap_format_and_open(&mut self, path: &str, name: &str, size: u64, filesystem: Filesystem) -> (r: Result<MapperHandle, DomainError>)
        ensures
            final(self).keeps(*old(self)),
            final(self).log() == old(self).log().push(PortCall::BootstrapFormatAndOpen(path@, name@, size, filesystem, r)),
            call_ensures(L::bootstrap_format_and_open, (old(self).luks(), path, name, size, filesystem), r),
    {
        let r = self.luks.bootstrap_format_and_open(path, name, size, filesystem);
        self.log = Ghost(self.log@.push(PortCall::BootstrapFormatAndOpen(path@, name@, size, filesystem, r)));
        r
    }

    /// Asks the port (`list_fido2_keyslots`), and records the call with its answer.
    pub fn list_fido2_keyslots(&mut self, path: &str) -> (r: Result<Vec<KeyslotInfo>, DomainError>)
        ensures
            final(self).keeps(*old(self)),
            final(self).log() == old(self).log().push(PortCall::ListFido2Keyslots(path@, r)),
            call_ensures(L::list_fido2_keyslots, (old(self).luks(), path), r),
    {
        let r = self.luks.list_fido2_keyslots(path);
        self.log = Ghost(self.log@.push(PortCall::ListFido2Keyslots(path@, r)));
        r
    }

    /// Asks the port (`remove_key`), and records the call with its answer.
    pub fn remove_key(&mut self, path: &str, keyslot: KeyslotRef) -> (r: Result<(), DomainError>)
        requires
            exists|live: Vec<KeyslotInfo>|
                #[trigger] call_ensures(
                    L::list_fido2_keyslots,
                    (old(self).luks(), path),
                    Ok::<Vec<KeyslotInfo>, DomainError>(live),
                ) && removal_allowed(live@, keyslot),
        ensures
            final(self).keeps(*old(self)),
            final(self).log() == old(self).log().push(PortCall::RemoveKey(path@, keyslot, r)),
            call_ensures(L::remove_key, (old(self).luks(), path, keyslot), r),
    {
        let r = self.luks.remove_key(path, keyslot);
        self.log = Ghost(self.log@.push(PortCall::RemoveKey(path@, keyslot, r)));
        r
    }

    /// Asks the port (`close`), and records the call with its answer.
    pub fn close(&mut self, mapper: &MapperHandle) -> (r: Result<(), DomainError>)
        ensures
            final(self).keeps(*old(self)),
            final(self).log() == old(self).log().push(PortCall::Close(*mapper, r)),
            call_ensures(L::close, (old(self).luks(), mapper), r),
    {
        let r = self.luks.close(mapper);
        self.log = Ghost(self.log@.push(PortCall::Close(*mapper, r)));
        r
    }

    /// Asks the port (`open`), and records the call with its answer.
    pub fn open(&mut self, path: &str, name: &str, read_only: bool) -> (r: Result<MapperHandle, DomainError>)
        ensures
            final(self).keeps(*old(self)),
            final(self).log() == old(self).log().push(PortCall::Open(path@, name@, read_only, r)),
            call_ensures(L::open, (old(self).luks(), path, name, read_only), r),
    {
        let r = self.luks.open(path, name, read_only);
        self.log = Ghost(self.log@.push(PortCall::Open(path@, name@, read_only, r)));
        r
    }

    /// Asks the port (`resize`), and records the call with its answer.
    pub fn resize(&mut self, mapper: &MapperHandle) -> (r: Result<(), DomainError>)
        ensures
            final(self).keeps(*old(self)),
            final(self).log() == old(self).log().push(PortCall::Resize(*mapper, r)),
            call_ensures(L::resize, (old(self).luks(), mapper), r),
    {
        let r = self.luks.resize(mapper);
        self.log = Ghost(self.log@.push(PortCall::Resize(*mapper, r)));
        r
    }

    /// Asks the port (`read_filesystem`), and records the call with its answer.
    pub fn read_filesystem(&mut self, path: &str) -> (r: Result<Filesystem, DomainError>)
        ensures
            final(self).keeps(*old(self)),
            final(self).log() == old(self).log().push(PortCall::ReadFilesystem(path@, r)),
            call_ensures(L::read_filesystem, (old(self).luks(), path), r),
    {
        let r = self.luks.read_filesystem(path);
        self.log = Ghost(self.log@.push(PortCall::ReadFilesystem(path@, r)));
        r
    }

    /// Asks the port (`list_open_mappings`), and records the call with its answer.
    pub fn list_open_mappings(&mut self) -> (r: Result<Vec<MapperHandle>, DomainError>)
        ensures
            final(self).keeps(*old(self)),
            final(self).log() == old(self).log().push(PortCall::ListOpenMappings(r)),
            call_ensures(L::list_open_mappings, (old(self).luks(),), r),
    {
        let r = self.luks.list_open_mappings();
        self.log = Ghost(self.log@.push(PortCall::ListOpenMappings(r)));
        r
    }

    /// Asks the FIDO2 port (`check_prerequisites`), and records the call with its answer.
    pub fn fido2_check_prerequisites(&mut self) -> (r: Result<(), Vec<String>>)
        ensures
            final(self).keeps(*old(self)),
            final(self).log() == old(self).log().push(PortCall::Fido2Prerequisites(r)),
            call_ensures(F::check_prerequisites, (old(self).fido2(),), r),
    {
        let r = self.fido2.check_prerequisites();
        self.log = Ghost(self.log@.push(PortCall::Fido2Prerequisites(r)));
        r
    }

    /// Asks the port (`enroll_fido2_key`), and records the call with its answer.
    pub fn enroll_fido2_key(&mut self, mapper: &MapperHandle, metadata: KeyMetadata, selection: Fido2DeviceSelection, user_verification: bool, client_pin: Option<bool>) -> (r: Result<(), DomainError>)
        ensures
            final(self).keeps(*old(self)),
            final(self).log() == old(self).log().push(PortCall::EnrollFido2Key(*mapper, metadata, selection, user_verification, client_pin, r)),
            call_ensures(F::enroll_fido2_key, (old(self).fido2(), mapper, metadata, selection, user_verification, client_pin), r),
    {
        let r = self.fido2.enroll_fido2_key(mapper, metadata, selection, user_verification, client_pin);
        self.log = Ghost(self.log@.push(PortCall::EnrollFido2Key(*mapper, metadata, selection, user_verification, client_pin, r)));
        r
    }

    /// Asks the filesystem port (`check_prerequisites`), and records the call with its answer.
    pub fn fs_check_prerequisites(&mut self, filesystem: Option<Filesystem>) -> (r: Result<(), Vec<String>>)
        ensures
            final(self).keeps(*old(self)),
            final(self).log() == old(self).log().push(PortCall::FsPrerequisites(filesystem, r)),
            call_ensures(S::check_prerequisites, (old(self).fs(), filesystem), r),
    {
        let r = self.fs.check_prerequisites(filesystem);
        self.log = Ghost(self.log@.push(PortCall::FsPrerequisites(filesystem, r)));
        r
    }

    /// Asks the port (`lock_target`), and records the call with its answer.
    pub fn lock_target(&mut self, path: &str) -> (r: Result<S::LockGuard, DomainError>)
        ensures
            final(self).keeps(*old(self)),
            final(self).log() == old(self).log().push(PortCall::LockTarget(path@, r is Ok)),
            call_ensures(S::lock_target, (old(self).fs(), path), r),
    {
        let r = self.fs.lock_target(path);
        self.log = Ghost(self.log@.push(PortCall::LockTarget(path@, r is Ok)));
        r
    }

    /// Asks the port (`canonicalize`), and records the call with its answer.
    pub fn canonicalize(&mut self, path: &str) -> (r: Result<String, String>)
        ensures
            final(self).keeps(*old(self)),
            final(self).log() == old(self).log().push(PortCall::Canonicalize(path@, r)),
            call_ensures(S::canonicalize, (old(self).fs(), path), r),
    {
        let r = self.fs.canonicalize(path);
        self.log = Ghost(self.log@.push(PortCall::Canonicalize(path@, r)));
        r
    }

    /// Asks the port (`read_text_file`), and records the call with its answer.
    pub fn read_text_file(&mut self, path: &str) -> (r: Option<String>)
        ensures
            final(self).keeps(*old(self)),
            final(self).log() == old(self).log().push(PortCall::ReadTextFile(path@, r)),
            call_ensures(S::read_text_file, (old(self).fs(), path), r),
    {
        let r = self.fs.read_text_file(path);
        self.log = Ghost(self.log@.push(PortCall::ReadTextFile(path@, r)));
        r
    }

    /// Asks the port (`path_exists`), and records the call with its answer.
    pub fn path_exists(&mut self, path: &str) -> (r: bool)
        ensures
            final(self).keeps(*old(self)),
            final(self).log() == old(self).log().push(PortCall::PathExists(path@, r)),
            call_ensures(S::path_exists, (old(self).fs(), path), r),
    {
        let r = self.fs.path_exists(path);
        self.log = Ghost(self.log@.push(PortCall::PathExists(path@, r)));
        r
    }

    /// Asks the port (`is_block_device`), and records the call with its answer.
    pub fn is_block_device(&mut self, path: &str) -> (r: Result<bool, DomainError>)
        ensures
            final(self).keeps(*old(self)),
            final(self).log() == old(self).log().push(PortCall::IsBlockDevice(path@, r)),
            call_ensures(S::is_block_device, (old(self).fs(), path), r),
    {
        let r = self.fs.is_block_device(path);
        self.log = Ghost(self.log@.push(PortCall::IsBlockDevice(path@, r)));
        r
    }

    /// Asks the port (`device_capacity`), and records the call with its answer.
    pub fn device_capacity(&mut self, path: &str) -> (r: Result<u64, DomainError>)
        ensures
            final(self).keeps(*old(self)),
            final(self).log() == old(self).log().push(PortCall::DeviceCapacity(path@, r)),
            call_ensures(S::device_capacity, (old(self).fs(), path), r),
    {
        let r = self.fs.device_capacity(path);
        self.log = Ghost(self.log@.push(PortCall::DeviceCapacity(path@, r)));
        r
    }

    /// Asks the port (`is_regular_file`), and records the call with its answer.
    pub fn is_regular_file(&mut self, path: &str) -> (r: Result<bool, DomainError>)
        ensures
            final(self).keeps(*old(self)),
            final(self).log() == old(self).log().push(PortCall::IsRegularFile(path@, r)),
            call_ensures(S::is_regular_file, (old(self).fs(), path), r),
    {
        let r = self.fs.is_regular_file(path);
        self.log = Ghost(self.log@.push(PortCall::IsRegularFile(path@, r)));
        r
    }

    /// Asks the port (`file_len`), and records the call with its answer.
    pub fn file_len(&mut self, path: &str) -> (r: Result<u64, DomainError>)
        ensures
            final(self).keeps(*old(self)),
            final(self).log() == old(self).log().push(PortCall::FileLen(path@, r)),
            call_ensures(S::file_len, (old(self).fs(), path), r),
    {
        let r = self.fs.file_len(path);
        self.log = Ghost(self.log@.push(PortCall::FileLen(path@, r)));
        r
    }

    /// Asks the port (`set_backing_file_size`), and records the call with its answer.
    pub fn set_backing_file_size(&mut self, path: &str, size: u64) -> (r: Result<(), DomainError>)
        ensures
            final(self).keeps(*old(self)),
            final(self).log() == old(self).log().push(PortCall::SetBackingFileSize(path@, size, r)),
            call_ensures(S::set_backing_file_size, (old(self).fs(), path, size), r),
    {
        let r = self.fs.set_backing_file_size(path, size);
        self.log = Ghost(self.log@.push(PortCall::SetBackingFileSize(path@, size, r)));
        r
    }

    /// Asks the port (`mkfs`), and records the call with its answer.
    pub fn mkfs(&mut self, mapper: &MapperHandle, filesystem: Filesystem) -> (r: Result<(), DomainError>)
        ensures
            final(self).keeps(*old(self)),
            final(self).log() == old(self).log().push(PortCall::Mkfs(*mapper, filesystem, r)),
            call_ensures(S::mkfs, (old(self).fs(), mapper, filesystem), r),
    {
        let r = self.fs.mkfs(mapper, filesystem);
        self.log = Ghost(self.log@.push(PortCall::Mkfs(*mapper, filesystem, r)));
        r
    }

    /// Asks the port (`growfs`), and records the call with its answer.
    pub fn growfs(&mut self, mapper: &MapperHandle, filesystem: Filesystem) -> (r: Result<(), DomainError>)
        ensures
            final(self).keeps(*old(self)),
            final(self).log() == old(self).log().push(PortCall::Growfs(*mapper, filesystem, r)),
            call_ensures(S::growfs, (old(self).fs(), mapper, filesystem), r),
    {
        let r = self.fs.growfs(mapper, filesystem);
        self.log = Ghost(self.log@.push(PortCall::Growfs(*mapper, filesystem, r)));
        r
    }

    /// Asks the port (`filesystem_size`), and records the call with its answer.
    pub fn filesystem_size(&mut self, mapper: &MapperHandle, filesystem: Filesystem) -> (r: Result<u64, DomainError>)
        ensures
            final(self).keeps(*old(self)),
            final(self).log() == old(self).log().push(PortCall::FilesystemSize(*mapper, filesystem, r)),
            call_ensures(S::filesystem_size, (old(self).fs(), mapper, filesystem), r),
    {
        let r = self.fs.filesystem_size(mapper, filesystem);
        self.log = Ghost(self.log@.push(PortCall::FilesystemSize(*mapper, filesystem, r)));
        r
    }

    /// Asks the port (`remove_backing_file`), and records the call with its answer.
    pub fn remove_backing_file(&mut self, path: &str) -> (r: Result<(), DomainError>)
        ensures
            final(self).keeps(*old(self)),
            final(self).log() == old(self).log().push(PortCall::RemoveBackingFile(path@, r)),
            call_ensures(S::remove_backing_file, (old(self).fs(), path), r),
    {
        let r = self.fs.remove_backing_file(path);
        self.log = Ghost(self.log@.push(PortCall::RemoveBackingFile(path@, r)));
        r
    }

    /// Asks the port (`mount`), and records the call with its answer.
    pub fn mount(&mut self, mapper: &MapperHandle, read_only: bool) -> (r: Result<String, DomainError>)
        ensures
            final(self).keeps(*old(self)),
            final(self).log() == old(self).log().push(PortCall::Mount(*mapper, read_only, r)),
            call_ensures(S::mount, (old(self).fs(), mapper, read_only), r),
    {
        let r = self.fs.mount(mapper, read_only);
        self.log = Ghost(self.log@.push(PortCall::Mount(*mapper, read_only, r)));
        r
    }

    /// Asks the port (`umount`), and records the call with its answer.
    pub fn umount(&mut self, mapper: &MapperHandle) -> (r: Result<(), DomainError>)
        ensures
            final(self).keeps(*old(self)),
            final(self).log() == old(self).log().push(PortCall::Umount(*mapper, r)),
            call_ensures(S::umount, (old(self).fs(), mapper), r),
    {
        let r = self.fs.umount(mapper);
        self.log = Ghost(self.log@.push(PortCall::Umount(*mapper, r)));
        r
    }

    /// Asks the port (`bind_mount`), and records the call with its answer.
    pub fn bind_mount(&mut self, source: &str, dest: &str) -> (r: Result<(), DomainError>)
        ensures
            final(self).keeps(*old(self)),
            final(self).log() == old(self).log().push(PortCall::BindMount(source@, dest@, r)),
            call_ensures(S::bind_mount, (old(self).fs(), source, dest), r),
    {
        let r = self.fs.bind_mount(source, dest);
        self.log = Ghost(self.log@.push(PortCall::BindMount(source@, dest@, r)));
        r
    }

    /// Asks the port (`hook_file_metadata`), and records the call with its answer.
    pub fn hook_file_metadata(&mut self, path: &str) -> (r: Result<HookFileMeta, DomainError>)
        ensures
            final(self).keeps(*old(self)),
            final(self).log() == old(self).log().push(PortCall::HookFileMetadata(path@, r)),
            call_ensures(S::hook_file_metadata, (old(self).fs(), path), r),
    {
        let r = self.fs.hook_file_metadata(path);
        self.log = Ghost(self.log@.push(PortCall::HookFileMetadata(path@, r)));
        r
    }

    /// Asks the port (`run_hook`), and records the call with its answer.
    pub fn run_hook(&mut self, path: &str, args: &[String]) -> (r: Result<Option<i32>, DomainError>)
        requires
            exists|meta: HookFileMeta|
                #[trigger] call_ensures(
                    S::hook_file_metadata,
                    (old(self).fs(), path),
                    Ok::<HookFileMeta, DomainError>(meta),
                ) && rejection_of(meta) is None,
        ensures
            final(self).keeps(*old(self)),
            final(self).log() == old(self).log().push(PortCall::RunHook(path@, args@, r)),
            call_ensures(S::run_hook, (old(self).fs(), path, args), r),
    {
        let r = self.fs.run_hook(path, args);
        self.log = Ghost(self.log@.push(PortCall::RunHook(path@, args@, r)));
        r
    }

    /// Asks the port (`invoking_home_dir`), and records the call with its answer.
    pub fn invoking_home_dir(&mut self) -> (r: Result<String, DomainError>)
        ensures
            final(self).keeps(*old(self)),
            final(self).log() == old(self).log().push(PortCall::InvokingHomeDir(r)),
            call_ensures(S::invoking_home_dir, (old(self).fs(),), r),
    {
        let r = self.fs.invoking_home_dir();
        self.log = Ghost(self.log@.push(PortCall::InvokingHomeDir(r)));
        r
    }

    /// Asks the port (`mount_point_of`), and records the call with its answer.
    pub fn mount_point_of(&mut self, mapper: &MapperHandle) -> (r: Result<String, DomainError>)
        ensures
            final(self).keeps(*old(self)),
            final(self).log() == old(self).log().push(PortCall::MountPointOf(*mapper, r)),
            call_ensures(S::mount_point_of, (old(self).fs(), mapper), r),
    {
        let r = self.fs.mount_point_of(mapper);
        self.log = Ghost(self.log@.push(PortCall::MountPointOf(*mapper, r)));
        r
    }

    /// Asks the port (`unmount_bind_hook_destination`), and records the call with its answer.
    pub fn unmount_bind_hook_destination(&mut self, dest: &str) -> (r: Result<(), DomainError>)
        ensures
            final(self).keeps(*old(self)),
            final(self).log() == old(self).log().push(PortCall::UnmountBindHookDestination(dest@, r)),
            call_ensures(S::unmount_bind_hook_destination, (old(self).fs(), dest), r),
    {
        let r = self.fs.unmount_bind_hook_destination(dest);
        self.log = Ghost(self.log@.push(PortCall::UnmountBindHookDestination(dest@, r)));
        r
    }

    /// Asks the port (`processes_using`), and records the call with its answer.
    pub fn processes_using(&mut self, mountpoint: &str) -> (r: Result<Vec<Pid>, DomainError>)
        ensures
            final(self).keeps(*old(self)),
            final(self).log() == old(self).log().push(PortCall::ProcessesUsing(mountpoint@, r)),
            call_ensures(S::processes_using, (old(self).fs(), mountpoint), r),
    {
        let r = self.fs.processes_using(mountpoint);
        self.log = Ghost(self.log@.push(PortCall::ProcessesUsing(mountpoint@, r)));
        r
    }

    /// Asks the port (`signal_process`), and records the call with its answer.
    pub fn signal_process(&mut self, pid: Pid, signal: Signal) -> (r: Result<(), DomainError>)
        requires
            pid.0 > 1,
        ensures
            final(self).keeps(*old(self)),
            final(self).log() == old(self).log().push(PortCall::SignalProcess(pid, signal, r)),
            call_ensures(S::signal_process, (old(self).fs(), pid, signal), r),
    {
        let r = self.fs.signal_process(pid, signal);
        self.log = Ghost(self.log@.push(PortCall::SignalProcess(pid, signal, r)));
        r
    }

    /// Asks the port (`escalation_pause`), and records the call with its answer.
    pub fn escalation_pause(&mut self)
        ensures
            final(self).keeps(*old(self)),
            final(self).log() == old(self).log().push(PortCall::EscalationPause),
            call_ensures(S::escalation_pause, (old(self).fs(),), ()),
    {
        self.fs.escalation_pause();
        self.log = Ghost(self.log@.push(PortCall::EscalationPause));
    }

    /// Asks the port (`scaffold_hook_templates`), and records the call with its answer.
    pub fn scaffold_hook_templates(&mut self, mountpoint: &str) -> (r: Result<(), DomainError>)
        ensures
            final(self).keeps(*old(self)),
            final(self).log() == old(self).log().push(PortCall::ScaffoldHookTemplates(mountpoint@, r)),
            call_ensures(S::scaffold_hook_templates, (old(self).fs(), mountpoint), r),
    {
        let r = self.fs.scaffold_hook_templates(mountpoint);
        self.log = Ghost(self.log@.push(PortCall::ScaffoldHookTemplates(mountpoint@, r)));
        r
    }

    /// Tells `progress` that the `create` stage `stage` starts, and records
    /// the report.
    pub fn announce_create<P: Fn(CreateStage)>(&mut self, progress: &P, stage: CreateStage)
        requires
            progress.requires((stage,)),
        ensures
            final(self).keeps(*old(self)),
            final(self).log() == old(self).log().push(PortCall::CreateStageStarted(stage)),
            call_ensures(*progress, (stage,), ()),
    {
        progress(stage);
        self.log = Ghost(self.log@.push(PortCall::CreateStageStarted(stage)));
    }

    /// Tells `progress` that the `resize` stage `stage` starts, and records
    /// the report.
    pub fn announce_resize<P: Fn(ResizeStage)>(&mut self, progress: &P, stage: ResizeStage)
        requires
            progress.requires((stage,)),
        ensures
            final(self).keeps(*old(self)),
            final(self).log() == old(self).log().push(PortCall::ResizeStageStarted(stage)),
            call_ensures(*progress, (stage,), ()),
    {
        progress(stage);
        self.log = Ghost(self.log@.push(PortCall::ResizeStageStarted(stage)));
    }
}

} // verus!
