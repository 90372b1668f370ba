//! Plain-language rendering of every error, warning and progress stage the
//! workflows report. The workflows keep their technical text; only this
//! module decides what the user reads.
use vstd::prelude::*;

use crate::domain::errors::{views, DomainError};
use crate::domain::hooks::{BindHookSkipReason, HookRejectionReason, HookWarning};
use crate::domain::progress::{CreateStage, ResizeStage};
use crate::text::{
    before_last, contains, debug_quote, debug_quoted, decimal, from_chars, has_infix, lemma_infix_extend, lemma_infix_of_concat, occurs_at,
    push_decimal, push_signed_decimal, signed_decimal, starts_with, text_before_last, to_chars,
};

verus! {

/// Markers of a failed FIDO2 enrollment step.
pub open spec fn enrollment_marker(s: Seq<char>) -> bool {
    ||| has_infix(s, "systemd-cryptenroll"@)
    ||| has_infix(s, "temporary key file"@)
    ||| has_infix(s, "transient bootstrap passphrase"@)
    ||| has_infix(s, "token export"@)
    ||| has_infix(s, "\"token\" \"import\""@)
    ||| has_infix(s, "token JSON"@)
    ||| has_infix(s, "systemd-fido2 token"@)
    ||| has_infix(s, "fido2-credential"@)
}

/// Markers of a failed size query or backing-file step.
pub open spec fn sizing_marker(s: Seq<char>) -> bool {
    ||| has_infix(s, "blockdev"@)
    ||| has_infix(s, "failed to size"@)
    ||| has_infix(s, "failed to create"@)
    ||| has_infix(s, "failed to remove"@)
    ||| has_infix(s, "failed to stat"@)
    ||| has_infix(s, "is not a regular file"@)
    ||| has_infix(s, "failed to open"@)
}

/// The path named in a canonicalization failure (`failed to canonicalize
/// <path>: <reason>`): the text before the last `": "`, or all of it.
pub open spec fn canonicalize_subject(rest: Seq<char>) -> Seq<char> {
    match before_last(rest, ": "@) {
        Some(p) => p,
        None => rest,
    }
}

/// The plain-language message for an adapter failure's technical text: the
/// first matching category, checked in this order so that a message that
/// mentions several markers lands in its most specific category.
pub open spec fn adapter_message(inner: Seq<char>) -> Seq<char> {
    if has_infix(inner, "fido2-token"@) {
        "Couldn't find your security key. Make sure it's plugged in, then try again."@
    } else if has_infix(inner, "luksDump"@) {
        "Hypogaol couldn't read this tomb's key information. Make sure the path points at a valid tomb, then try again."@
    } else if enrollment_marker(inner) {
        "Enrolling your security key didn't complete. Make sure it's plugged in and touch it when prompted, then try again."@
    } else if has_infix(inner, "luksKillSlot"@) || has_infix(inner, "token remove"@) {
        "Revoking that key didn't complete. Nothing has been changed — try again."@
    } else if has_infix(inner, "but failed to re-lock afterward"@) {
        "Hypogaol grew this volume successfully, but couldn't re-lock its LUKS2 volume afterward. Your data and the new capacity are safe — run `close` to finish, or try `resize` again."@
    } else if has_infix(inner, "cryptsetup close"@) {
        "Hypogaol couldn't re-lock this tomb's LUKS2 volume. Make sure nothing is still using it, then try again."@
    } else if has_infix(inner, "cryptsetup resize"@) {
        "Hypogaol couldn't resize this tomb's LUKS2 volume — your security key or its PIN may not have been accepted in time."@
    } else if has_infix(inner, "too small for activation"@) {
        "This tomb's size leaves no room for a filesystem once the encryption header is accounted for. Choose a larger size and try again."@
    } else if has_infix(inner, "cryptsetup"@) {
        "Something went wrong while unlocking or creating your tomb — your security key or its PIN may not have been accepted in time."@
    } else if has_infix(inner, "no active mapping"@) {
        "This tomb doesn't appear to be unlocked right now — run unlock first."@
    } else if has_infix(inner, "not currently mounted"@) {
        "This tomb doesn't look like it's currently mounted."@
    } else if has_infix(inner, "umount"@) || has_infix(inner, "findmnt"@) {
        "Hypogaol couldn't unmount this tomb's filesystem. Make sure nothing is still using it, then try again."@
    } else if has_infix(inner, "resize2fs"@) {
        "Hypogaol grew this tomb's volume, but couldn't grow its filesystem to match."@
    } else if has_infix(inner, "e2fsck"@) {
        "Hypogaol grew this tomb's volume, but couldn't check its filesystem before growing it to match."@
    } else if has_infix(inner, "mount"@) || has_infix(inner, "mkfs"@) {
        "Your volume unlocked, but Hypogaol couldn't mount its filesystem."@
    } else if starts_with(inner, "failed to canonicalize "@) {
        "Hypogaol couldn't find "@ + canonicalize_subject(
            inner.subrange("failed to canonicalize "@.len() as int, inner.len() as int),
        ) + ". Check the path and try again."@
    } else if sizing_marker(inner) {
        "Hypogaol couldn't determine or set the size needed for this tomb."@
    } else {
        "Something unexpected happened while working with your tomb.\nTechnical detail: "@
            + inner
    }
}

fn is_enrollment_failure(inner: &str) -> (r: bool)
    ensures
        r == enrollment_marker(inner@),
{
    contains(inner, "systemd-cryptenroll") || contains(inner, "temporary key file") || contains(
        inner,
        "transient bootstrap passphrase",
    ) || contains(inner, "token export") || contains(inner, "\"token\" \"import\"") || contains(
        inner,
        "token JSON",
    ) || contains(inner, "systemd-fido2 token") || contains(inner, "fido2-credential")
}

fn is_sizing_failure(inner: &str) -> (r: bool)
    ensures
        r == sizing_marker(inner@),
{
    contains(inner, "blockdev") || contains(inner, "failed to size") || contains(
        inner,
        "failed to create",
    ) || contains(inner, "failed to remove") || contains(inner, "failed to stat") || contains(
        inner,
        "is not a regular file",
    ) || contains(inner, "failed to open")
}

/// The path of a canonicalization failure, when `inner` is one.
fn canonicalize_failure_subject(inner: &str) -> (r: Option<String>)
    ensures
        match r {
            None => !starts_with(inner@, "failed to canonicalize "@),
            Some(p) => starts_with(inner@, "failed to canonicalize "@) && p@ == canonicalize_subject(
                inner@.subrange("failed to canonicalize "@.len() as int, inner@.len() as int),
            ),
        },
{
    let v = to_chars(inner);
    let prefix = to_chars("failed to canonicalize ");
    if prefix.len() > v.len() {
        return None;
    }
    let mut i: usize = 0;
    while i < prefix.len()
        invariant
            prefix@.len() <= v@.len(),
            v@ == inner@,
            prefix@ == "failed to canonicalize "@,
            i <= prefix@.len(),
            forall|k: int| 0 <= k < i ==> v@[k] == prefix@[k],
        decreases prefix.len() - i,
    {
        if v[i] != prefix[i] {
            assert(v@.subrange(0, prefix@.len() as int)[i as int] != prefix@[i as int]);
            return None;
        }
        i = i + 1;
    }
    assert(v@.subrange(0, prefix@.len() as int) =~= prefix@);
    let rest = from_chars(v.as_slice(), prefix.len(), v.len());
    let rest_chars = to_chars(rest.as_str());
    let sep = to_chars(": ");
    let ghost tail = inner@.subrange("failed to canonicalize "@.len() as int, inner@.len() as int);
    assert(rest@ == tail);
    match text_before_last(rest_chars.as_slice(), sep.as_slice()) {
        Some(w) => {
            let p = from_chars(w.as_slice(), 0, w.len());
            assert(w@.subrange(0, w@.len() as int) =~= w@);
            Some(p)
        },
        None => Some(rest),
    }
}

/// Renders an adapter failure's technical text as the message of its
/// category (see `adapter_message`).
pub fn translate_adapter_failure(inner: &str) -> (m: String)
    ensures
        m@ == adapter_message(inner@),
{
    if contains(inner, "fido2-token") {
        return String::from_str(
            "Couldn't find your security key. Make sure it's plugged in, then try again.",
        );
    }
    if contains(inner, "luksDump") {
        return String::from_str(
            "Hypogaol couldn't read this tomb's key information. Make sure the path points at a valid tomb, then try again.",
        );
    }
    if is_enrollment_failure(inner) {
        return String::from_str(
            "Enrolling your security key didn't complete. Make sure it's plugged in and touch it when prompted, then try again.",
        );
    }
    if contains(inner, "luksKillSlot") || contains(inner, "token remove") {
        return String::from_str(
            "Revoking that key didn't complete. Nothing has been changed — try again.",
        );
    }
    if contains(inner, "but failed to re-lock afterward") {
        return String::from_str(
            "Hypogaol grew this volume successfully, but couldn't re-lock its LUKS2 volume afterward. Your data and the new capacity are safe — run `close` to finish, or try `resize` again.",
        );
    }
    if contains(inner, "cryptsetup close") {
        return String::from_str(
            "Hypogaol couldn't re-lock this tomb's LUKS2 volume. Make sure nothing is still using it, then try again.",
        );
    }
    if contains(inner, "cryptsetup resize") {
        return String::from_str(
            "Hypogaol couldn't resize this tomb's LUKS2 volume — your security key or its PIN may not have been accepted in time.",
        );
    }
    if contains(inner, "too small for activation") {
        return String::from_str(
            "This tomb's size leaves no room for a filesystem once the encryption header is accounted for. Choose a larger size and try again.",
        );
    }
    if contains(inner, "cryptsetup") {
        return String::from_str(
            "Something went wrong while unlocking or creating your tomb — your security key or its PIN may not have been accepted in time.",
        );
    }
    if contains(inner, "no active mapping") {
        return String::from_str(
            "This tomb doesn't appear to be unlocked right now — run unlock first.",
        );
    }
    if contains(inner, "not currently mounted") {
        return String::from_str("This tomb doesn't look like it's currently mounted.");
    }
    if contains(inner, "umount") || contains(inner, "findmnt") {
        return String::from_str(
            "Hypogaol couldn't unmount this tomb's filesystem. Make sure nothing is still using it, then try again.",
        );
    }
    if contains(inner, "resize2fs") {
        return String::from_str(
            "Hypogaol grew this tomb's volume, but couldn't grow its filesystem to match.",
        );
    }
    if contains(inner, "e2fsck") {
        return String::from_str(
            "Hypogaol grew this tomb's volume, but couldn't check its filesystem before growing it to match.",
        );
    }
    if contains(inner, "mount") || contains(inner, "mkfs") {
        return String::from_str("Your volume unlocked, but Hypogaol couldn't mount its filesystem.");
    }
    if let Some(path) = canonicalize_failure_subject(inner) {
        let mut m = String::from_str("Hypogaol couldn't find ");
        m.append(path.as_str());
        m.append(". Check the path and try again.");
        return m;
    }
    if is_sizing_failure(inner) {
        return String::from_str(
            "Hypogaol couldn't determine or set the size needed for this tomb.",
        );
    }
    let mut m = String::from_str(
        "Something unexpected happened while working with your tomb.\nTechnical detail: ",
    );
    m.append(inner);
    m
}

/// Why a rejected `exec-hooks` file was refused, in plain words.
pub open spec fn rejection_clause(reason: HookRejectionReason) -> Seq<char> {
    match reason {
        HookRejectionReason::NotARegularFile => "it isn't a regular file (or is a symlink)"@,
        HookRejectionReason::NotExecutable => "it isn't marked executable"@,
        HookRejectionReason::WrongOwner => "it isn't owned by you or root"@,
        HookRejectionReason::WorldWritable => "it's writable by anyone on this system"@,
    }
}

fn rejection_clause_text(reason: HookRejectionReason) -> (s: &'static str)
    ensures
        s@ == rejection_clause(reason),
{
    match reason {
        HookRejectionReason::NotARegularFile => "it isn't a regular file (or is a symlink)",
        HookRejectionReason::NotExecutable => "it isn't marked executable",
        HookRejectionReason::WrongOwner => "it isn't owned by you or root",
        HookRejectionReason::WorldWritable => "it's writable by anyone on this system",
    }
}

/// The missing dependencies, each on its own `  - ` line.
pub open spec fn bullet_lines(items: Seq<Seq<char>>) -> Seq<char>
    decreases items.len(),
{
    if items.len() == 0 {
        seq![]
    } else {
        bullet_lines(items.drop_last()) + "\n  - "@ + items.last()
    }
}

/// Each item stands on a bullet line of its own.
proof fn lemma_bullet_lines_list_each(items: Seq<Seq<char>>, i: int)
    requires
        0 <= i < items.len(),
    ensures
        has_infix(bullet_lines(items), "\n  - "@ + items[i]),
    decreases items.len(),
{
    let rest = items.drop_last();
    let line = "\n  - "@ + items.last();
    assert(bullet_lines(items) =~= bullet_lines(rest) + line);
    if i == items.len() - 1 {
        assert(bullet_lines(items) =~= bullet_lines(rest) + line + seq![]);
        lemma_infix_of_concat(bullet_lines(rest), line, seq![]);
    } else {
        lemma_bullet_lines_list_each(rest, i);
        assert(rest[i] == items[i]);
        assert(bullet_lines(items) =~= seq![] + bullet_lines(rest) + line);
        lemma_infix_extend(seq![], bullet_lines(rest), line, "\n  - "@ + items[i]);
    }
}

/// The plain-language message for an error.
pub open spec fn translation(err: DomainError) -> Seq<char>
    decreases err,
{
    match err {
        DomainError::DestinationExists(path) => "A tomb already exists at "@ + path@
            + ". Choose a different location, or unlock the existing one instead."@,
        DomainError::DeviceAlreadyFormatted(path) => path@
            + " already has an encrypted tomb on it. If you meant to unlock it, use the unlock command instead."@,
        DomainError::DeviceConfirmationRequired =>
            "Creating a tomb on a device erases everything on it. Please confirm the warning to continue."@,
        DomainError::DeviceSizeExceedsCapacity { path, requested, capacity } => "You asked for "@
            + decimal(requested as nat) + " bytes, but "@ + path@ + " only has "@ + decimal(
            capacity as nat,
        ) + " bytes available."@,
        DomainError::DeviceTooSmall { path, size } => path@ + " would only have "@ + decimal(
            size as nat,
        ) + " bytes for a tomb — that's too small to be usable."@,
        DomainError::ResizeMustGrow { path, requested, current_size } => path@ + " is already "@
            + decimal(current_size as nat) + " bytes. You asked for "@ + decimal(requested as nat)
            + " bytes — resize can only grow a tomb, never shrink it."@,
        DomainError::PreflightFailed(missing) =>
            "Hypogaol can't run yet — a few things are missing:"@ + bullet_lines(views(missing@)),
        DomainError::LastKeyslotGuard =>
            "That's the last key that can unlock this tomb — revoking it would lock you out permanently, so this was refused."@,
        DomainError::KeyNotFound(label) => "No enrolled key is labeled "@ + debug_quoted(label@)
            + ". Check the label (case-sensitive) and try again."@,
        DomainError::AdapterFailure(inner) => adapter_message(inner@),
        DomainError::LockContention(path) =>
            "Another Hypogaol operation is already in progress on "@ + path@
            + ". Wait for it to finish, then try again."@,
        DomainError::HookRejected { path, reason } =>
            "Hypogaol refused to run this tomb's exec-hooks script ("@ + path@ + ") because "@
            + rejection_clause(reason) + ". Nothing has changed."@,
        DomainError::RollbackCleanupAlsoFailed { original, operation, close_detail } =>
            translation(*original) + " (On top of that, Hypogaol couldn't "@ + operation@
            + " while cleaning up: "@ + close_detail@
            + " — it may have been left open; run `close` to check.)"@,
    }
}

/// Renders any error in plain language.
pub fn translate(err: &DomainError) -> (m: String)
    ensures
        m@ == translation(*err),
    decreases *err,
{
    match err {
        DomainError::DestinationExists(path) => {
            let mut m = String::from_str("A tomb already exists at ");
            m.append(path.as_str());
            m.append(". Choose a different location, or unlock the existing one instead.");
            m
        },
        DomainError::DeviceAlreadyFormatted(path) => {
            let mut m = path.clone();
            m.append(
                " already has an encrypted tomb on it. If you meant to unlock it, use the unlock command instead.",
            );
            m
        },
        DomainError::DeviceConfirmationRequired => String::from_str(
            "Creating a tomb on a device erases everything on it. Please confirm the warning to continue.",
        ),
        DomainError::DeviceSizeExceedsCapacity { path, requested, capacity } => {
            let mut m = String::from_str("You asked for ");
            push_decimal(&mut m, *requested);
            m.append(" bytes, but ");
            m.append(path.as_str());
            m.append(" only has ");
            push_decimal(&mut m, *capacity);
            m.append(" bytes available.");
            m
        },
        DomainError::DeviceTooSmall { path, size } => {
            let mut m = path.clone();
            m.append(" would only have ");
            push_decimal(&mut m, *size);
            m.append(" bytes for a tomb — that's too small to be usable.");
            m
        },
        DomainError::ResizeMustGrow { path, requested, current_size } => {
            let mut m = path.clone();
            m.append(" is already ");
            push_decimal(&mut m, *current_size);
            m.append(" bytes. You asked for ");
            push_decimal(&mut m, *requested);
            m.append(" bytes — resize can only grow a tomb, never shrink it.");
            m
        },
        DomainError::PreflightFailed(missing) => {
            let mut m = String::from_str("Hypogaol can't run yet — a few things are missing:");
            let ghost start = m@;
            let mut i: usize = 0;
            while i < missing.len()
                invariant
                    i <= missing@.len(),
                    m@ == start + bullet_lines(views(missing@.subrange(0, i as int))),
                decreases missing.len() - i,
            {
                let ghost prev = views(missing@.subrange(0, i as int));
                let ghost next = views(missing@.subrange(0, i + 1));
                assert(next.drop_last() =~= prev);
                assert(next.last() == missing@[i as int]@);
                m.append("\n  - ");
                m.append(missing[i].as_str());
                i = i + 1;
            }
            assert(missing@.subrange(0, i as int) =~= missing@);
            m
        },
        DomainError::LastKeyslotGuard => String::from_str(
            "That's the last key that can unlock this tomb — revoking it would lock you out permanently, so this was refused.",
        ),
        DomainError::KeyNotFound(label) => {
            let mut m = String::from_str("No enrolled key is labeled ");
            let q = debug_quote(label.as_str());
            m.append(q.as_str());
            m.append(". Check the label (case-sensitive) and try again.");
            m
        },
        DomainError::AdapterFailure(inner) => translate_adapter_failure(inner.as_str()),
        DomainError::LockContention(path) => {
            let mut m = String::from_str("Another Hypogaol operation is already in progress on ");
            m.append(path.as_str());
            m.append(". Wait for it to finish, then try again.");
            m
        },
        DomainError::HookRejected { path, reason } => {
            let mut m = String::from_str("Hypogaol refused to run this tomb's exec-hooks script (");
            m.append(path.as_str());
            m.append(") because ");
            m.append(rejection_clause_text(*reason));
            m.append(". Nothing has changed.");
            m
        },
        DomainError::RollbackCleanupAlsoFailed { original, operation, close_detail } => {
            let mut m = translate(original);
            m.append(" (On top of that, Hypogaol couldn't ");
            m.append(operation);
            m.append(" while cleaning up: ");
            m.append(close_detail.as_str());
            m.append(" — it may have been left open; run `close` to check.)");
            m
        },
    }
}

/// Why a bind-hooks entry was skipped, in plain words.
pub open spec fn skip_clause(reason: BindHookSkipReason) -> Seq<char> {
    match reason {
        BindHookSkipReason::SourceMissing => "its source path doesn't exist"@,
        BindHookSkipReason::DestMissing => "its destination path doesn't exist"@,
        BindHookSkipReason::SourceEscapesVolumeRoot => "its source path escapes the tomb"@,
        BindHookSkipReason::DestEscapesHome => "its destination path escapes your home directory"@,
        BindHookSkipReason::BindMountFailed => "the bind-mount itself failed"@,
    }
}

fn skip_clause_text(reason: BindHookSkipReason) -> (s: &'static str)
    ensures
        s@ == skip_clause(reason),
{
    match reason {
        BindHookSkipReason::SourceMissing => "its source path doesn't exist",
        BindHookSkipReason::DestMissing => "its destination path doesn't exist",
        BindHookSkipReason::SourceEscapesVolumeRoot => "its source path escapes the tomb",
        BindHookSkipReason::DestEscapesHome => "its destination path escapes your home directory",
        BindHookSkipReason::BindMountFailed => "the bind-mount itself failed",
    }
}

/// The plain-language message for a hooks-step warning.
pub open spec fn warning_text(w: HookWarning) -> Seq<char> {
    match w {
        HookWarning::BindHookSkipped { source, dest, reason } => "Skipped bind-hooks entry \""@
            + source@ + " -> "@ + dest@ + "\": "@ + skip_clause(reason) + "."@,
        HookWarning::ExecHookNonZeroExit { path, exit_code } => match exit_code {
            Some(code) => "This tomb's exec-hooks script ("@ + path@ + ") exited with status "@
                + signed_decimal(code as int) + " — continuing anyway."@,
            None => "This tomb's exec-hooks script ("@ + path@
                + ") was terminated by a signal — continuing anyway."@,
        },
        HookWarning::BindHooksFileUnreadable { path } => "Couldn't read this tomb's bind-hooks file ("@
            + path@ + ") — skipping all bind-hooks entries."@,
    }
}

/// Renders a hooks-step warning in plain language.
pub fn translate_hook_warning(w: &HookWarning) -> (m: String)
    ensures
        m@ == warning_text(*w),
{
    match w {
        HookWarning::BindHookSkipped { source, dest, reason } => {
            let mut m = String::from_str("Skipped bind-hooks entry \"");
            m.append(source.as_str());
            m.append(" -> ");
            m.append(dest.as_str());
            m.append("\": ");
            m.append(skip_clause_text(*reason));
            m.append(".");
            m
        },
        HookWarning::ExecHookNonZeroExit { path, exit_code } => {
            let mut m = String::from_str("This tomb's exec-hooks script (");
            m.append(path.as_str());
            match exit_code {
                Some(code) => {
                    m.append(") exited with status ");
                    push_signed_decimal(&mut m, *code);
                    m.append(" — continuing anyway.");
                },
                None => {
                    m.append(") was terminated by a signal — continuing anyway.");
                },
            }
            m
        },
        HookWarning::BindHooksFileUnreadable { path } => {
            let mut m = String::from_str("Couldn't read this tomb's bind-hooks file (");
            m.append(path.as_str());
            m.append(") — skipping all bind-hooks entries.");
            m
        },
    }
}

/// What the user is told as each `create` stage starts.
pub open spec fn create_stage_text(stage: CreateStage) -> Seq<char> {
    match stage {
        CreateStage::AllocatingBackingFile => "Allocating the backing file..."@,
        CreateStage::FormattingLuks2 => "Formatting as LUKS2..."@,
        CreateStage::EnrollingFido2Key =>
            "Enrolling your FIDO2 key — touch it now (you may also be asked for its PIN)..."@,
        CreateStage::CreatingFilesystem => "Creating the filesystem..."@,
        CreateStage::ScaffoldingHookTemplates => "Writing the hook templates into the tomb..."@,
    }
}

pub fn translate_create_stage(stage: &CreateStage) -> (m: &'static str)
    ensures
        m@ == create_stage_text(*stage),
{
    match stage {
        CreateStage::AllocatingBackingFile => "Allocating the backing file...",
        CreateStage::FormattingLuks2 => "Formatting as LUKS2...",
        CreateStage::EnrollingFido2Key =>
            "Enrolling your FIDO2 key — touch it now (you may also be asked for its PIN)...",
        CreateStage::CreatingFilesystem => "Creating the filesystem...",
        CreateStage::ScaffoldingHookTemplates => "Writing the hook templates into the tomb...",
    }
}

/// What the user is told as each `resize` stage starts.
pub open spec fn resize_stage_text(stage: ResizeStage) -> Seq<char> {
    match stage {
        ResizeStage::GrowingBackingFile => "Growing the backing file..."@,
        ResizeStage::ResizingLuks2Mapping => "Resizing the LUKS2 mapping..."@,
        ResizeStage::GrowingFilesystem => "Growing the filesystem..."@,
    }
}

pub fn translate_resize_stage(stage: &ResizeStage) -> (m: &'static str)
    ensures
        m@ == resize_stage_text(*stage),
{
    match stage {
        ResizeStage::GrowingBackingFile => "Growing the backing file...",
        ResizeStage::ResizingLuks2Mapping => "Resizing the LUKS2 mapping...",
        ResizeStage::GrowingFilesystem => "Growing the filesystem...",
    }
}

/// Each stage's message names the step that stage performs: growing the
/// backing file, resizing the LUKS2 mapping and growing the filesystem for
/// `resize`; the backing file, LUKS2, the FIDO2 key, the filesystem and the
/// hook templates for `create`.
pub proof fn law_stage_messages_name_their_stage()
    ensures
        has_infix(resize_stage_text(ResizeStage::GrowingBackingFile), "backing file"@),
        has_infix(resize_stage_text(ResizeStage::ResizingLuks2Mapping), "LUKS2 mapping"@),
        has_infix(resize_stage_text(ResizeStage::GrowingFilesystem), "filesystem"@),
        has_infix(create_stage_text(CreateStage::AllocatingBackingFile), "backing file"@),
        has_infix(create_stage_text(CreateStage::FormattingLuks2), "LUKS2"@),
        has_infix(create_stage_text(CreateStage::EnrollingFido2Key), "FIDO2 key"@),
        has_infix(create_stage_text(CreateStage::CreatingFilesystem), "filesystem"@),
        has_infix(create_stage_text(CreateStage::ScaffoldingHookTemplates), "hook templates"@),
{
    reveal_strlit("Growing the backing file...");
    reveal_strlit("Resizing the LUKS2 mapping...");
    reveal_strlit("Growing the filesystem...");
    reveal_strlit("Allocating the backing file...");
    reveal_strlit("Formatting as LUKS2...");
    reveal_strlit("Enrolling your FIDO2 key — touch it now (you may also be asked for its PIN)...");
    reveal_strlit("Creating the filesystem...");
    reveal_strlit("Writing the hook templates into the tomb...");
    reveal_strlit("backing file");
    reveal_strlit("LUKS2 mapping");
    reveal_strlit("filesystem");
    reveal_strlit("LUKS2");
    reveal_strlit("FIDO2 key");
    reveal_strlit("hook templates");
    let r0 = resize_stage_text(ResizeStage::GrowingBackingFile);
    let r1 = resize_stage_text(ResizeStage::ResizingLuks2Mapping);
    let r2 = resize_stage_text(ResizeStage::GrowingFilesystem);
    let c0 = create_stage_text(CreateStage::AllocatingBackingFile);
    let c1 = create_stage_text(CreateStage::FormattingLuks2);
    let c2 = create_stage_text(CreateStage::EnrollingFido2Key);
    let c3 = create_stage_text(CreateStage::CreatingFilesystem);
    let c4 = create_stage_text(CreateStage::ScaffoldingHookTemplates);
    assert(r0.subrange(12, 24) =~= "backing file"@);
    assert(occurs_at(r0, "backing file"@, 12));
    assert(r1.subrange(13, 26) =~= "LUKS2 mapping"@);
    assert(occurs_at(r1, "LUKS2 mapping"@, 13));
    assert(r2.subrange(12, 22) =~= "filesystem"@);
    assert(occurs_at(r2, "filesystem"@, 12));
    assert(c0.subrange(15, 27) =~= "backing file"@);
    assert(occurs_at(c0, "backing file"@, 15));
    assert(c1.subrange(14, 19) =~= "LUKS2"@);
    assert(occurs_at(c1, "LUKS2"@, 14));
    assert(c2.subrange(15, 24) =~= "FIDO2 key"@);
    assert(occurs_at(c2, "FIDO2 key"@, 15));
    assert(c3.subrange(13, 23) =~= "filesystem"@);
    assert(occurs_at(c3, "filesystem"@, 13));
    assert(c4.subrange(12, 26) =~= "hook templates"@);
    assert(occurs_at(c4, "hook templates"@, 12));
}

/// An error message names what it is about: the path of the tomb, device
/// or hook script concerned, the sizes compared, the reason a hook was
/// refused, and every missing dependency, each on a bullet line of its own.
pub proof fn law_error_messages_name_their_subject(e: DomainError)
    ensures
        e matches DomainError::DestinationExists(p) ==> has_infix(translation(e), p@),
        e matches DomainError::DeviceAlreadyFormatted(p) ==> has_infix(translation(e), p@),
        e matches DomainError::LockContention(p) ==> has_infix(translation(e), p@),
        e matches DomainError::DeviceTooSmall { path, size } ==> has_infix(translation(e), path@)
            && has_infix(translation(e), decimal(size as nat)),
        e matches DomainError::DeviceSizeExceedsCapacity { path, requested, capacity } ==> has_infix(
            translation(e),
            path@,
        ) && has_infix(translation(e), decimal(requested as nat)) && has_infix(
            translation(e),
            decimal(capacity as nat),
        ),
        e matches DomainError::ResizeMustGrow { path, requested, current_size } ==> has_infix(
            translation(e),
            path@,
        ) && has_infix(translation(e), decimal(requested as nat)) && has_infix(
            translation(e),
            decimal(current_size as nat),
        ),
        e matches DomainError::HookRejected { path, reason } ==> has_infix(translation(e), path@)
            && has_infix(translation(e), rejection_clause(reason)),
        e matches DomainError::PreflightFailed(missing) ==> forall|i: int|
            0 <= i < missing.len() ==> has_infix(translation(e), "\n  - "@ + (#[trigger] missing@[i])@),
{
    let t = translation(e);
    match e {
        DomainError::PreflightFailed(missing) => {
            let head = "Hypogaol can't run yet — a few things are missing:"@;
            let items = views(missing@);
            assert forall|i: int| 0 <= i < missing.len() implies has_infix(
                t,
                "\n  - "@ + (#[trigger] missing@[i])@,
            ) by {
                lemma_bullet_lines_list_each(items, i);
                assert(items[i] == missing@[i]@);
                assert(t =~= head + bullet_lines(items) + seq![]);
                lemma_infix_extend(head, bullet_lines(items), seq![], "\n  - "@ + items[i]);
            }
        },
        DomainError::DestinationExists(p) => {
            lemma_infix_of_concat("A tomb already exists at "@, p@,
                ". Choose a different location, or unlock the existing one instead."@);
        },
        DomainError::DeviceAlreadyFormatted(p) => {
            let tail = " already has an encrypted tomb on it. If you meant to unlock it, use the unlock command instead."@;
            assert(t =~= seq![] + p@ + tail);
            lemma_infix_of_concat(seq![], p@, tail);
        },
        DomainError::LockContention(p) => {
            lemma_infix_of_concat("Another Hypogaol operation is already in progress on "@, p@,
                ". Wait for it to finish, then try again."@);
        },
        DomainError::DeviceTooSmall { path, size } => {
            let d = decimal(size as nat);
            let tail = " bytes for a tomb — that's too small to be usable."@;
            assert(t =~= seq![] + path@ + (" would only have "@ + d + tail));
            lemma_infix_of_concat(seq![], path@, " would only have "@ + d + tail);
            assert(t =~= (path@ + " would only have "@) + d + tail);
            lemma_infix_of_concat(path@ + " would only have "@, d, tail);
        },
        DomainError::DeviceSizeExceedsCapacity { path, requested, capacity } => {
            let a = "You asked for "@;
            let dr = decimal(requested as nat);
            let b = " bytes, but "@;
            let c = " only has "@;
            let dc = decimal(capacity as nat);
            let z = " bytes available."@;
            assert(t =~= a + dr + (b + path@ + c + dc + z));
            lemma_infix_of_concat(a, dr, b + path@ + c + dc + z);
            assert(t =~= (a + dr + b) + path@ + (c + dc + z));
            lemma_infix_of_concat(a + dr + b, path@, c + dc + z);
            assert(t =~= (a + dr + b + path@ + c) + dc + z);
            lemma_infix_of_concat(a + dr + b + path@ + c, dc, z);
        },
        DomainError::ResizeMustGrow { path, requested, current_size } => {
            let a = " is already "@;
            let dc = decimal(current_size as nat);
            let b = " bytes. You asked for "@;
            let dr = decimal(requested as nat);
            let z = " bytes — resize can only grow a tomb, never shrink it."@;
            assert(t =~= seq![] + path@ + (a + dc + b + dr + z));
            lemma_infix_of_concat(seq![], path@, a + dc + b + dr + z);
            assert(t =~= (path@ + a) + dc + (b + dr + z));
            lemma_infix_of_concat(path@ + a, dc, b + dr + z);
            assert(t =~= (path@ + a + dc + b) + dr + z);
            lemma_infix_of_concat(path@ + a + dc + b, dr, z);
        },
        DomainError::HookRejected { path, reason } => {
            let a = "Hypogaol refused to run this tomb's exec-hooks script ("@;
            let b = ") because "@;
            let r = rejection_clause(reason);
            let z = ". Nothing has changed."@;
            assert(t =~= a + path@ + (b + r + z));
            lemma_infix_of_concat(a, path@, b + r + z);
            assert(t =~= (a + path@ + b) + r + z);
            lemma_infix_of_concat(a + path@ + b, r, z);
        },
        _ => {},
    }
}

/// Each reason an exec-hooks script is refused, and each reason a
/// bind-hooks entry is skipped, is told as the check that failed: not a
/// regular file, not executable, the wrong owner, writable by anyone; a
/// missing source or destination, a source escaping the tomb, a destination
/// escaping the home directory, or the bind-mount itself failing.
pub proof fn law_hook_reasons_say_what_failed()
    ensures
        has_infix(rejection_clause(HookRejectionReason::NotARegularFile), "regular file"@),
        has_infix(rejection_clause(HookRejectionReason::NotExecutable), "executable"@),
        has_infix(rejection_clause(HookRejectionReason::WrongOwner), "owned by you or root"@),
        has_infix(rejection_clause(HookRejectionReason::WorldWritable), "writable by anyone"@),
        has_infix(skip_clause(BindHookSkipReason::SourceMissing), "source path"@),
        has_infix(skip_clause(BindHookSkipReason::SourceMissing), "doesn't exist"@),
        has_infix(skip_clause(BindHookSkipReason::DestMissing), "destination path"@),
        has_infix(skip_clause(BindHookSkipReason::DestMissing), "doesn't exist"@),
        has_infix(skip_clause(BindHookSkipReason::SourceEscapesVolumeRoot), "source path"@),
        has_infix(skip_clause(BindHookSkipReason::SourceEscapesVolumeRoot), "escapes the tomb"@),
        has_infix(skip_clause(BindHookSkipReason::DestEscapesHome), "destination path"@),
        has_infix(skip_clause(BindHookSkipReason::DestEscapesHome), "escapes your home directory"@),
        has_infix(skip_clause(BindHookSkipReason::BindMountFailed), "bind-mount"@),
{
    reveal_strlit("it isn't a regular file (or is a symlink)");
    reveal_strlit("regular file");
    reveal_strlit("it isn't marked executable");
    reveal_strlit("executable");
    reveal_strlit("it isn't owned by you or root");
    reveal_strlit("owned by you or root");
    reveal_strlit("it's writable by anyone on this system");
    reveal_strlit("writable by anyone");
    reveal_strlit("its source path doesn't exist");
    reveal_strlit("source path");
    reveal_strlit("doesn't exist");
    reveal_strlit("its destination path doesn't exist");
    reveal_strlit("destination path");
    reveal_strlit("its source path escapes the tomb");
    reveal_strlit("escapes the tomb");
    reveal_strlit("its destination path escapes your home directory");
    reveal_strlit("escapes your home directory");
    reveal_strlit("the bind-mount itself failed");
    reveal_strlit("bind-mount");
    assert(rejection_clause(HookRejectionReason::NotARegularFile).subrange(11, 23) =~= "regular file"@);
    assert(occurs_at(rejection_clause(HookRejectionReason::NotARegularFile), "regular file"@, 11));
    assert(rejection_clause(HookRejectionReason::NotExecutable).subrange(16, 26) =~= "executable"@);
    assert(occurs_at(rejection_clause(HookRejectionReason::NotExecutable), "executable"@, 16));
    assert(rejection_clause(HookRejectionReason::WrongOwner).subrange(9, 29) =~= "owned by you or root"@);
    assert(occurs_at(rejection_clause(HookRejectionReason::WrongOwner), "owned by you or root"@, 9));
    assert(rejection_clause(HookRejectionReason::WorldWritable).subrange(5, 23) =~= "writable by anyone"@);
    assert(occurs_at(rejection_clause(HookRejectionReason::WorldWritable), "writable by anyone"@, 5));
    assert(skip_clause(BindHookSkipReason::SourceMissing).subrange(4, 15) =~= "source path"@);
    assert(occurs_at(skip_clause(BindHookSkipReason::SourceMissing), "source path"@, 4));
    assert(skip_clause(BindHookSkipReason::SourceMissing).subrange(16, 29) =~= "doesn't exist"@);
    assert(occurs_at(skip_clause(BindHookSkipReason::SourceMissing), "doesn't exist"@, 16));
    assert(skip_clause(BindHookSkipReason::DestMissing).subrange(4, 20) =~= "destination path"@);
    assert(occurs_at(skip_clause(BindHookSkipReason::DestMissing), "destination path"@, 4));
    assert(skip_clause(BindHookSkipReason::DestMissing).subrange(21, 34) =~= "doesn't exist"@);
    assert(occurs_at(skip_clause(BindHookSkipReason::DestMissing), "doesn't exist"@, 21));
    assert(skip_clause(BindHookSkipReason::SourceEscapesVolumeRoot).subrange(4, 15) =~= "source path"@);
    assert(occurs_at(skip_clause(BindHookSkipReason::SourceEscapesVolumeRoot), "source path"@, 4));
    assert(skip_clause(BindHookSkipReason::SourceEscapesVolumeRoot).subrange(16, 32) =~= "escapes the tomb"@);
    assert(occurs_at(skip_clause(BindHookSkipReason::SourceEscapesVolumeRoot), "escapes the tomb"@, 16));
    assert(skip_clause(BindHookSkipReason::DestEscapesHome).subrange(4, 20) =~= "destination path"@);
    assert(occurs_at(skip_clause(BindHookSkipReason::DestEscapesHome), "destination path"@, 4));
    assert(skip_clause(BindHookSkipReason::DestEscapesHome).subrange(21, 48) =~= "escapes your home directory"@);
    assert(occurs_at(skip_clause(BindHookSkipReason::DestEscapesHome), "escapes your home directory"@, 21));
    assert(skip_clause(BindHookSkipReason::BindMountFailed).subrange(4, 14) =~= "bind-mount"@);
    assert(occurs_at(skip_clause(BindHookSkipReason::BindMountFailed), "bind-mount"@, 4));
}

/// A hooks warning names what it is about: the skipped entry's source and
/// destination and why it was skipped, the exec-hooks script and its exit
/// status, or the unreadable bind-hooks file.
pub proof fn law_hook_warnings_name_their_subject(w: HookWarning)
    ensures
        w matches HookWarning::BindHookSkipped { source, dest, reason } ==> has_infix(
            warning_text(w),
            source@,
        ) && has_infix(warning_text(w), dest@) && has_infix(warning_text(w), skip_clause(reason)),
        w matches HookWarning::ExecHookNonZeroExit { path, exit_code } ==> has_infix(
            warning_text(w),
            path@,
        ),
        w matches HookWarning::ExecHookNonZeroExit { path, exit_code: Some(code) } ==> has_infix(
            warning_text(w),
            signed_decimal(code as int),
        ),
        w matches HookWarning::BindHooksFileUnreadable { path } ==> has_infix(warning_text(w), path@),
{
    let t = warning_text(w);
    match w {
        HookWarning::BindHookSkipped { source, dest, reason } => {
            let a = "Skipped bind-hooks entry \""@;
            let b = " -> "@;
            let c = "\": "@;
            let r = skip_clause(reason);
            let z = "."@;
            assert(t =~= a + source@ + (b + dest@ + c + r + z));
            lemma_infix_of_concat(a, source@, b + dest@ + c + r + z);
            assert(t =~= (a + source@ + b) + dest@ + (c + r + z));
            lemma_infix_of_concat(a + source@ + b, dest@, c + r + z);
            assert(t =~= (a + source@ + b + dest@ + c) + r + z);
            lemma_infix_of_concat(a + source@ + b + dest@ + c, r, z);
        },
        HookWarning::ExecHookNonZeroExit { path, exit_code } => {
            let a = "This tomb's exec-hooks script ("@;
            match exit_code {
                Some(code) => {
                    let b = ") exited with status "@;
                    let d = signed_decimal(code as int);
                    let z = " — continuing anyway."@;
                    assert(t =~= a + path@ + (b + d + z));
                    lemma_infix_of_concat(a, path@, b + d + z);
                    assert(t =~= (a + path@ + b) + d + z);
                    lemma_infix_of_concat(a + path@ + b, d, z);
                },
                None => {
                    lemma_infix_of_concat(a, path@,
                        ") was terminated by a signal — continuing anyway."@);
                },
            }
        },
        HookWarning::BindHooksFileUnreadable { path } => {
            lemma_infix_of_concat("Couldn't read this tomb's bind-hooks file ("@, path@,
                ") — skipping all bind-hooks entries."@);
        },
    }
}

/// Every `create` stage, every `resize` stage, every guardrail rejection
/// and every bind-hooks skip reason reads differently from the others of
/// its kind.
pub proof fn law_messages_tell_cases_apart(
    a: CreateStage,
    b: CreateStage,
    c: ResizeStage,
    d: ResizeStage,
    e: HookRejectionReason,
    f: HookRejectionReason,
    g: BindHookSkipReason,
    h: BindHookSkipReason,
)
    ensures
        create_stage_text(a) == create_stage_text(b) ==> a == b,
        resize_stage_text(c) == resize_stage_text(d) ==> c == d,
        rejection_clause(e) == rejection_clause(f) ==> e == f,
        skip_clause(g) == skip_clause(h) ==> g == h,
{
    reveal_strlit("Allocating the backing file...");
    reveal_strlit("Formatting as LUKS2...");
    reveal_strlit("Enrolling your FIDO2 key — touch it now (you may also be asked for its PIN)...");
    reveal_strlit("Creating the filesystem...");
    reveal_strlit("Writing the hook templates into the tomb...");
    reveal_strlit("Growing the backing file...");
    reveal_strlit("Resizing the LUKS2 mapping...");
    reveal_strlit("Growing the filesystem...");
    reveal_strlit("it isn't a regular file (or is a symlink)");
    reveal_strlit("it isn't marked executable");
    reveal_strlit("it isn't owned by you or root");
    reveal_strlit("it's writable by anyone on this system");
    reveal_strlit("its source path doesn't exist");
    reveal_strlit("its destination path doesn't exist");
    reveal_strlit("its source path escapes the tomb");
    reveal_strlit("its destination path escapes your home directory");
    reveal_strlit("the bind-mount itself failed");
    if create_stage_text(a) == create_stage_text(b) && a != b {
        assert(create_stage_text(a).len() != create_stage_text(b).len() || create_stage_text(a)[0]
            != create_stage_text(b)[0]);
    }
    if resize_stage_text(c) == resize_stage_text(d) && c != d {
        assert(resize_stage_text(c).len() != resize_stage_text(d).len());
    }
    if rejection_clause(e) == rejection_clause(f) && e != f {
        assert(rejection_clause(e).len() != rejection_clause(f).len());
    }
    if skip_clause(g) == skip_clause(h) && g != h {
        assert(skip_clause(g).len() != skip_clause(h).len() || skip_clause(g)[4] != skip_clause(h)[4]);
    }
}

/// A failed cleanup never hides the failure it followed: the message of
/// the combined error begins with the message of the original one.
pub proof fn law_rollback_keeps_the_primary_cause(original: DomainError, operation: &'static str, close_detail: String)
    ensures
        translation(DomainError::RollbackCleanupAlsoFailed {
            original: Box::new(original),
            operation,
            close_detail,
        }).subrange(0, translation(original).len() as int) == translation(original),
{
    let t = translation(DomainError::RollbackCleanupAlsoFailed {
        original: Box::new(original),
        operation,
        close_detail,
    });
    assert(t.subrange(0, translation(original).len() as int) =~= translation(original));
}

} // verus!
