//! The decisions behind the adapter's tool invocations: which flags
//! `systemd-cryptenroll` gets, whether a fresh mapping must be shrunk to
//! the requested size, the order in which a key is removed, and how a
//! volume is mounted.
use vstd::prelude::*;

use crate::adapters::exec::luks_header::{
    keyslots_for_token, references_slot, token_for_keyslot, token_slots, LuksHeader,
};
use crate::domain::errors::DomainError;
use crate::text::{concat, decimal, push_decimal, to_chars};

verus! {

/// `yes` or `no`.
pub open spec fn yes_no_text(flag: bool) -> Seq<char> {
    if flag {
        "yes"@
    } else {
        "no"@
    }
}

fn yes_no(flag: bool) -> (r: &'static str)
    ensures
        r@ == yes_no_text(flag),
{
    if flag {
        "yes"
    } else {
        "no"
    }
}

/// The verification flags of an enrollment: user verification as asked;
/// the host-typed PIN as asked, and turned off when it was not asked about
/// but user verification was (so the device's own check is the one used).
pub open spec fn enroll_flags(user_verification: bool, client_pin: Option<bool>) -> Seq<Seq<char>> {
    let uv = seq!["--fido2-with-user-verification="@ + yes_no_text(user_verification)];
    match client_pin {
        Some(pin) => uv.push("--fido2-with-client-pin="@ + yes_no_text(pin)),
        None => if user_verification {
            uv.push("--fido2-with-client-pin=no"@)
        } else {
            uv
        },
    }
}

/// The verification flags of an enrollment, as `enroll_flags` gives them.
pub fn cryptenroll_flags(user_verification: bool, client_pin: Option<bool>) -> (r: Vec<String>)
    ensures
        r@.map_values(|s: String| s@) == enroll_flags(user_verification, client_pin),
{
    let mut flags: Vec<String> = Vec::new();
    flags.push(concat("--fido2-with-user-verification=", yes_no(user_verification)));
    match client_pin {
        Some(pin) => flags.push(concat("--fido2-with-client-pin=", yes_no(pin))),
        None => if user_verification {
            flags.push(String::from_str("--fido2-with-client-pin=no"));
        },
    }
    assert(flags@.map_values(|s: String| s@) =~= enroll_flags(user_verification, client_pin));
    flags
}

/// How an enrollment proves it may add a keyslot: with the transient
/// bootstrap passphrase in a key file, or with an already enrolled key.
#[derive(Debug, Clone, PartialEq, Eq)]
pub enum UnlockCredential {
    KeyFile(String),
    Fido2Device(String),
}

/// The flag that hands `unlock` to `systemd-cryptenroll`.
pub open spec fn unlock_flag(unlock: UnlockCredential) -> Seq<char> {
    match unlock {
        UnlockCredential::KeyFile(p) => "--unlock-key-file="@ + p@,
        UnlockCredential::Fido2Device(d) => "--unlock-fido2-device="@ + d@,
    }
}

/// The whole `systemd-cryptenroll` argument list: the new key's device,
/// the verification flags, the unlock credential, then the volume.
pub open spec fn enroll_args(
    new_device: Seq<char>,
    user_verification: bool,
    client_pin: Option<bool>,
    unlock: UnlockCredential,
    path: Seq<char>,
) -> Seq<Seq<char>> {
    seq!["--fido2-device="@ + new_device] + enroll_flags(user_verification, client_pin) + seq![
        unlock_flag(unlock),
        path,
    ]
}

/// The `systemd-cryptenroll` arguments of an enrollment.
pub fn cryptenroll_args(
    new_device: &str,
    user_verification: bool,
    client_pin: Option<bool>,
    unlock: &UnlockCredential,
    path: &str,
) -> (r: Vec<String>)
    ensures
        r@.map_values(|s: String| s@) == enroll_args(
            new_device@,
            user_verification,
            client_pin,
            *unlock,
            path@,
        ),
{
    let mut args: Vec<String> = Vec::new();
    args.push(concat("--fido2-device=", new_device));
    let mut flags = cryptenroll_flags(user_verification, client_pin);
    let ghost head = args@;
    let ghost tail = flags@;
    args.append(&mut flags);
    assert(args@ == head + tail);
    let unlock_arg = match unlock {
        UnlockCredential::KeyFile(p) => concat("--unlock-key-file=", p.as_str()),
        UnlockCredential::Fido2Device(d) => concat("--unlock-fido2-device=", d.as_str()),
    };
    args.push(unlock_arg);
    args.push(String::from_str(path));
    assert(args@.map_values(|s: String| s@) =~= enroll_args(
        new_device@,
        user_verification,
        client_pin,
        *unlock,
        path@,
    ));
    args
}

/// Whether a freshly opened mapping must be shrunk to `size`: only when the
/// storage is larger (resizing to the full capacity fails outright). A
/// failure to learn the storage's size is the error; the caller closes the
/// mapping it just opened before returning it.
pub fn bootstrap_resize_plan(raw: Result<u64, String>, size: u64) -> (r: Result<bool, DomainError>)
    ensures
        raw matches Ok(n) ==> r == Ok::<bool, DomainError>(n > size),
        raw matches Err(e) ==> (r matches Err(DomainError::AdapterFailure(m)) && m@ == e@),
{
    match raw {
        Ok(n) => Ok(n > size),
        Err(e) => Err(DomainError::AdapterFailure(e)),
    }
}

/// One step of removing a key.
#[derive(Debug, Clone, PartialEq, Eq)]
pub enum RemovalStep {
    RemoveToken(String),
    KillSlot(u32),
}

/// The steps that remove `slot`: its token first (when one references it),
/// the keyslot last — a keyslot without a token is orphaned but safe, a
/// token without a keyslot would be counted as a live key.
pub fn removal_plan(header: &LuksHeader, slot: u32) -> (r: Result<Vec<RemovalStep>, DomainError>)
    ensures
        r matches Ok(steps) ==> steps@.len() >= 1 && steps@.last() == RemovalStep::KillSlot(slot),
        r matches Ok(steps) ==> forall|i: int|
            0 <= i < steps@.len() - 1 ==> (#[trigger] steps@[i]) is RemoveToken,
        header.tokens is None ==> (r matches Err(DomainError::AdapterFailure(m)) && m@
            == "luksDump JSON missing a tokens object"@),
        header.tokens matches Some(tokens) ==> (r matches Ok(steps) && ((forall|i: int|
            0 <= i < tokens@.len() ==> !references_slot(#[trigger] tokens@[i], slot)) ==> steps@
            == seq![RemovalStep::KillSlot(slot)]) && (forall|i: int|
            0 <= i < tokens@.len() && references_slot(#[trigger] tokens@[i], slot) && (forall|k: int|
                0 <= k < i ==> !references_slot(#[trigger] tokens@[k], slot)) ==> steps@.len() == 2
                && (steps@[0] matches RemovalStep::RemoveToken(id) && id@ == tokens@[i].id@))),
{
    match token_for_keyslot(header, slot)? {
        Some(token) => {
            let mut steps: Vec<RemovalStep> = Vec::new();
            steps.push(RemovalStep::RemoveToken(token));
            steps.push(RemovalStep::KillSlot(slot));
            Ok(steps)
        },
        None => {
            let mut steps: Vec<RemovalStep> = Vec::new();
            steps.push(RemovalStep::KillSlot(slot));
            Ok(steps)
        },
    }
}

/// What follows writing a new key's metadata: nothing after a success;
/// after a failure, every keyslot of the new token `token_id` (in the
/// header read afterwards, when it could be read) is to be removed, and the
/// failure is the outcome — an unlabelled key is never left behind.
pub fn metadata_rollback(
    written: Result<(), DomainError>,
    header: Option<&LuksHeader>,
    token_id: &str,
) -> (r: (Vec<u32>, Result<(), DomainError>))
    ensures
        written is Ok ==> r.0@.len() == 0 && r.1 is Ok,
        written matches Err(e) ==> r.1 == Err::<(), DomainError>(e),
        written is Err && header is None ==> r.0@.len() == 0,
        header matches Some(h) ==> (written is Err && h.tokens is None ==> r.0@.len() == 0),
        header matches Some(h) ==> (written is Err ==> (h.tokens matches Some(tokens) && (forall|i: int|
            0 <= i < tokens@.len() ==> (#[trigger] tokens@[i]).id@ != token_id@) ==> r.0@.len() == 0)),
        header matches Some(h) ==> (written is Err ==> (h.tokens matches Some(tokens) ==> (forall|i: int|
            0 <= i < tokens@.len() && (#[trigger] tokens@[i]).id@ == token_id@ && (forall|k: int|
                0 <= k < i ==> (#[trigger] tokens@[k]).id@ != token_id@) ==> r.0@ == token_slots(
                tokens@[i],
            )))),
{
    match written {
        Ok(()) => (Vec::new(), Ok(())),
        Err(e) => match header {
            Some(h) => (keyslots_for_token(h, token_id), Err(e)),
            None => (Vec::new(), Err(e)),
        },
    }
}

/// The `mount -o` options of a mount: read-only mounts skip journal replay
/// (a read-only mapping cannot take the writes it needs).
pub fn mount_options(read_only: bool) -> (r: Option<&'static str>)
    ensures
        read_only ==> (r matches Some(o) && o@ == "ro,noload"@),
        !read_only ==> r is None,
{
    if read_only {
        Some("ro,noload")
    } else {
        None
    }
}

/// Whether a mount hands the mount point to the invoking user and
/// restricts it to them: only a writable one (a read-only mount refuses
/// the metadata writes).
pub fn claims_ownership(read_only: bool) -> (r: bool)
    ensures
        r == !read_only,
{
    !read_only
}

/// How many directory names a mount tries before it gives up.
pub const MOUNT_POINT_ATTEMPTS: u32 = 3;

/// The mount point directory name tried at `attempt` (counting from 1):
/// the volume's `name` first, then `name-` followed by the first four
/// characters of a fresh random `suffix`.
pub open spec fn mount_point_name_text(name: Seq<char>, attempt: u32, suffix: Seq<char>) -> Seq<char> {
    if attempt <= 1 {
        name
    } else if suffix.len() < 4 {
        name + "-"@ + suffix
    } else {
        name + "-"@ + suffix.subrange(0, 4)
    }
}

/// The first candidate mount point is the volume's own name; a later one is
/// the name, a hyphen and the first four characters of the random suffix
/// (all of it when shorter), so every candidate starts with the name.
pub proof fn law_mount_point_names(name: Seq<char>, attempt: u32, suffix: Seq<char>)
    ensures
        attempt <= 1 ==> mount_point_name_text(name, attempt, suffix) == name,
        mount_point_name_text(name, attempt, suffix).subrange(0, name.len() as int) == name,
        attempt > 1 ==> mount_point_name_text(name, attempt, suffix)[name.len() as int] == '-',
        attempt > 1 ==> mount_point_name_text(name, attempt, suffix).len() == name.len() + 1 + (
        if suffix.len() < 4 {
            suffix.len() as int
        } else {
            4
        }),
        attempt > 1 ==> mount_point_name_text(name, attempt, suffix).subrange(
            name.len() + 1int,
            mount_point_name_text(name, attempt, suffix).len() as int,
        ) == suffix.subrange(0, if suffix.len() < 4 { suffix.len() as int } else { 4 }),
{
    reveal_strlit("-");
    let r = mount_point_name_text(name, attempt, suffix);
    assert(r.subrange(0, name.len() as int) =~= name);
    if attempt > 1 {
        let k = if suffix.len() < 4 { suffix.len() as int } else { 4 };
        assert(suffix.subrange(0, suffix.len() as int) =~= suffix);
        assert(r.subrange(name.len() + 1int, r.len() as int) =~= suffix.subrange(0, k));
    }
}

pub fn mount_point_name(name: &str, attempt: u32, suffix: &str) -> (r: String)
    ensures
        r@ == mount_point_name_text(name@, attempt, suffix@),
{
    if attempt <= 1 {
        return String::from_str(name);
    }
    let mut r = concat(name, "-");
    let chars = to_chars(suffix);
    let end: usize = if chars.len() < 4 {
        chars.len()
    } else {
        4
    };
    let taken = crate::text::from_chars(chars.as_slice(), 0, end);
    r.append(taken.as_str());
    assert(chars@.subrange(0, chars@.len() as int) =~= chars@);
    r
}

/// What creating a candidate mount point directory answered.
#[derive(Debug, Clone, PartialEq, Eq)]
pub enum DirCreation {
    Created,
    AlreadyExists,
    Failed(String),
}

/// What a mount does after trying a candidate mount point.
#[derive(Debug, Clone, PartialEq, Eq)]
pub enum MountPointStep {
    /// The candidate was created: mount there.
    Use,
    /// The name is taken: try the next name.
    Retry,
    /// Stop with this error message.
    GiveUp(String),
}

/// The mount point policy: a created directory is used; a taken name is
/// retried under the next name until `MOUNT_POINT_ATTEMPTS` names were
/// tried; any other failure, or running out of names, gives up with the
/// message naming `base` or `candidate`.
pub fn mount_point_step(base: &str, candidate: &str, attempt: u32, outcome: DirCreation) -> (r:
    MountPointStep)
    ensures
        match outcome {
            DirCreation::Created => r is Use,
            DirCreation::AlreadyExists => if attempt < MOUNT_POINT_ATTEMPTS {
                r is Retry
            } else {
                r matches MountPointStep::GiveUp(m) && m@ == "could not find an available mount point under "@
                    + base@ + " after "@ + decimal(MOUNT_POINT_ATTEMPTS as nat) + " attempts"@
            },
            DirCreation::Failed(e) => r matches MountPointStep::GiveUp(m) && m@
                == "failed to create mount point "@ + candidate@ + ": "@ + e@,
        },
{
    match outcome {
        DirCreation::Created => MountPointStep::Use,
        DirCreation::AlreadyExists => {
            if attempt < MOUNT_POINT_ATTEMPTS {
                MountPointStep::Retry
            } else {
                let mut m = concat("could not find an available mount point under ", base);
                m.append(" after ");
                push_decimal(&mut m, MOUNT_POINT_ATTEMPTS as u64);
                m.append(" attempts");
                MountPointStep::GiveUp(m)
            }
        },
        DirCreation::Failed(e) => {
            let mut m = concat("failed to create mount point ", candidate);
            m.append(": ");
            m.append(e.as_str());
            MountPointStep::GiveUp(m)
        },
    }
}

/// One step of undoing a mount that failed part-way.
#[derive(Debug, Clone, Copy, PartialEq, Eq, Structural)]
pub enum MountUndoStep {
    Unmount,
    RemoveDir,
}

/// The undo of a mount that failed after its directory was created: the
/// mount is taken down first when it went through, then the directory is
/// removed.
pub fn mount_undo_plan(mounted: bool) -> (r: Vec<MountUndoStep>)
    ensures
        mounted ==> r@ == seq![MountUndoStep::Unmount, MountUndoStep::RemoveDir],
        !mounted ==> r@ == seq![MountUndoStep::RemoveDir],
{
    let mut r: Vec<MountUndoStep> = Vec::new();
    if mounted {
        r.push(MountUndoStep::Unmount);
    }
    r.push(MountUndoStep::RemoveDir);
    r
}

} // verus!
