use vstd::prelude::*;

verus! {

/// The filesystem formatted inside a volume.
#[derive(Debug, Clone, Copy, PartialEq, Eq, Structural)]
pub enum Filesystem {
    Ext4,
    Xfs,
    Btrfs,
}

/// The two `create` target modes: a backing file this tool allocates, or an
/// existing raw device/partition whose wipe the user must confirm.
#[derive(Debug, Clone, PartialEq, Eq)]
pub enum CreateTarget {
    File { path: String, size: u64 },
    Device { path: String, size: Option<u64>, confirmed: bool },
}

/// An opened LUKS2 mapping: the dm-crypt mapping name plus the container
/// path it was opened from.
#[derive(Debug, Clone, PartialEq, Eq)]
pub struct MapperHandle {
    pub name: String,
    pub source_path: String,
}

/// `/dev/mapper/<name>`.
pub open spec fn device_node_text(name: Seq<char>) -> Seq<char> {
    "/dev/mapper/"@ + name
}

impl MapperHandle {
    /// The decrypted block device node of this mapping.
    pub fn device_node(&self) -> (node: String)
        ensures
            node@ == device_node_text(self.name@),
    {
        let mut node = String::from_str("/dev/mapper/");
        node.append(self.name.as_str());
        node
    }
}

/// A mapping's device node lives under `/dev/mapper/` and is named after
/// the mapping.
pub proof fn law_device_node_under_dev_mapper(name: Seq<char>)
    ensures
        device_node_text(name).len() == name.len() + 12,
        device_node_text(name).subrange(0, 12) == "/dev/mapper/"@,
        device_node_text(name).subrange(12, device_node_text(name).len() as int) == name,
{
    reveal_strlit("/dev/mapper/");
    assert(device_node_text(name).subrange(0, 12) =~= "/dev/mapper/"@);
    assert(device_node_text(name).subrange(12, device_node_text(name).len() as int) =~= name);
}

/// What `domain` supplies when enrolling a FIDO2 key; the port adds the
/// credential id and creation time itself.
#[derive(Debug, Clone, PartialEq, Eq)]
pub struct KeyMetadata {
    pub key_label: String,
    pub filesystem: Filesystem,
}

/// A LUKS2 keyslot number.
#[derive(Debug, Clone, Copy, PartialEq, Eq, Structural)]
pub struct KeyslotRef(pub u32);

/// One live keyslot carrying a `systemd-fido2` token: a valid key.
#[derive(Debug, Clone, PartialEq, Eq)]
pub struct KeyslotInfo {
    pub keyslot: KeyslotRef,
    pub key_label: String,
}

/// `stat`/`lstat` facts about a candidate `exec-hooks` file.
#[derive(Debug, Clone, Copy, PartialEq, Eq, Structural)]
pub struct HookFileMeta {
    pub is_regular_file: bool,
    pub is_symlink: bool,
    pub is_executable: bool,
    pub owned_by_invoking_user_or_root: bool,
    pub is_world_writable: bool,
}

/// A process id holding a mount point open.
#[derive(Debug, Clone, Copy, PartialEq, Eq, Structural)]
pub struct Pid(pub u32);

/// The signals slam's escalation sends, in this order.
#[derive(Debug, Clone, Copy, PartialEq, Eq, Structural)]
pub enum Signal {
    Sigterm,
    Sighup,
    Sigkill,
}

} // verus!
