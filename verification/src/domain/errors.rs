//! The one error type every workflow returns, and its technical message.
use vstd::prelude::*;

use crate::domain::hooks::HookRejectionReason;
use crate::text::{concat, debug_quote, debug_quoted, decimal, push_decimal};

verus! {

#[derive(Debug)]
pub enum DomainError {
    PreflightFailed(Vec<String>),
    DestinationExists(String),
    LastKeyslotGuard,
    DeviceAlreadyFormatted(String),
    DeviceConfirmationRequired,
    DeviceSizeExceedsCapacity { path: String, requested: u64, capacity: u64 },
    DeviceTooSmall { path: String, size: u64 },
    ResizeMustGrow { path: String, requested: u64, current_size: u64 },
    AdapterFailure(String),
    LockContention(String),
    KeyNotFound(String),
    HookRejected { path: String, reason: HookRejectionReason },
    RollbackCleanupAlsoFailed {
        original: Box<DomainError>,
        operation: &'static str,
        close_detail: String,
    },
}

/// The items of `items` separated by `sep`.
pub open spec fn join(items: Seq<Seq<char>>, sep: Seq<char>) -> Seq<char>
    decreases items.len(),
{
    if items.len() == 0 {
        seq![]
    } else if items.len() == 1 {
        items[0]
    } else {
        join(items.drop_last(), sep) + sep + items.last()
    }
}

/// The name of a rejection reason, as `Debug` renders it.
pub open spec fn reason_name(r: HookRejectionReason) -> Seq<char> {
    match r {
        HookRejectionReason::NotARegularFile => "NotARegularFile"@,
        HookRejectionReason::NotExecutable => "NotExecutable"@,
        HookRejectionReason::WrongOwner => "WrongOwner"@,
        HookRejectionReason::WorldWritable => "WorldWritable"@,
    }
}

pub fn reason_name_text(r: HookRejectionReason) -> (s: &'static str)
    ensures
        s@ == reason_name(r),
{
    match r {
        HookRejectionReason::NotARegularFile => "NotARegularFile",
        HookRejectionReason::NotExecutable => "NotExecutable",
        HookRejectionReason::WrongOwner => "WrongOwner",
        HookRejectionReason::WorldWritable => "WorldWritable",
    }
}

/// The views of a vector of strings.
pub open spec fn views(v: Seq<String>) -> Seq<Seq<char>> {
    v.map_values(|s: String| s@)
}

/// The technical (untranslated) message of an error: what its `Display`
/// rendering says.
pub open spec fn message_text(e: DomainError) -> Seq<char>
    decreases e,
{
    match e {
        DomainError::PreflightFailed(missing) => "missing required dependencies: "@ + join(
            views(missing@),
            ", "@,
        ),
        DomainError::DestinationExists(path) => "destination already exists: "@ + path@,
        DomainError::LastKeyslotGuard =>
            "refusing to remove the last remaining FIDO2 key: at least one key must always stay enrolled"@,
        DomainError::DeviceAlreadyFormatted(path) => path@ + " already carries a LUKS2 header"@,
        DomainError::DeviceConfirmationRequired =>
            "device-backed create requires explicit confirmation of the wipe/data-loss warning"@,
        DomainError::DeviceSizeExceedsCapacity { path, requested, capacity } => "requested size "@
            + decimal(requested as nat) + " bytes exceeds "@ + path@ + " capacity of "@ + decimal(
            capacity as nat,
        ) + " bytes"@,
        DomainError::DeviceTooSmall { path, size } => "resolved size "@ + decimal(size as nat)
            + " bytes for "@ + path@ + " is too small for a viable volume"@,
        DomainError::ResizeMustGrow { path, requested, current_size } => "requested size "@
            + decimal(requested as nat) + " bytes is not larger than the current size "@
            + decimal(current_size as nat) + " bytes for "@ + path@ + " — resize is grow-only"@,
        DomainError::AdapterFailure(detail) => detail@,
        DomainError::LockContention(path) => "another operation is already in progress on "@
            + path@,
        DomainError::KeyNotFound(label) => "no FIDO2 key labeled "@ + debug_quoted(label@)
            + " is enrolled on this volume"@,
        DomainError::HookRejected { path, reason } => "exec-hooks at "@ + path@
            + " was rejected: "@ + reason_name(reason),
        DomainError::RollbackCleanupAlsoFailed { original, operation, close_detail } =>
            message_text(*original),
    }
}

fn join_strings(items: &Vec<String>, sep: &str) -> (r: String)
    ensures
        r@ == join(views(items@), sep@),
{
    let mut r = String::new();
    let mut i: usize = 0;
    while i < items.len()
        invariant
            i <= items@.len(),
            r@ == join(views(items@.subrange(0, i as int)), sep@),
        decreases items.len() - i,
    {
        let ghost prev = views(items@.subrange(0, i as int));
        let ghost next = views(items@.subrange(0, i + 1));
        assert(next.drop_last() =~= prev);
        assert(next.last() == items@[i as int]@);
        if i > 0 {
            r.append(sep);
        } else {
            assert(next.len() == 1);
        }
        r.append(items[i].as_str());
        i = i + 1;
    }
    assert(items@.subrange(0, i as int) =~= items@);
    r
}

impl DomainError {
    /// The technical message of this error (what its `Display` says).
    pub fn message(&self) -> (m: String)
        ensures
            m@ == message_text(*self),
        decreases *self,
    {
        match self {
            DomainError::PreflightFailed(missing) => {
                let joined = join_strings(missing, ", ");
                concat("missing required dependencies: ", joined.as_str())
            },
            DomainError::DestinationExists(path) => concat(
                "destination already exists: ",
                path.as_str(),
            ),
            DomainError::LastKeyslotGuard => String::from_str(
                "refusing to remove the last remaining FIDO2 key: at least one key must always stay enrolled",
            ),
            DomainError::DeviceAlreadyFormatted(path) => concat(
                path.as_str(),
                " already carries a LUKS2 header",
            ),
            DomainError::DeviceConfirmationRequired => String::from_str(
                "device-backed create requires explicit confirmation of the wipe/data-loss warning",
            ),
            DomainError::DeviceSizeExceedsCapacity { path, requested, capacity } => {
                let mut m = String::from_str("requested size ");
                push_decimal(&mut m, *requested);
                m.append(" bytes exceeds ");
                m.append(path.as_str());
                m.append(" capacity of ");
                push_decimal(&mut m, *capacity);
                m.append(" bytes");
                m
            },
            DomainError::DeviceTooSmall { path, size } => {
                let mut m = String::from_str("resolved size ");
                push_decimal(&mut m, *size);
                m.append(" bytes for ");
                m.append(path.as_str());
                m.append(" is too small for a viable volume");
                m
            },
            DomainError::ResizeMustGrow { path, requested, current_size } => {
                let mut m = String::from_str("requested size ");
                push_decimal(&mut m, *requested);
                m.append(" bytes is not larger than the current size ");
                push_decimal(&mut m, *current_size);
                m.append(" bytes for ");
                m.append(path.as_str());
                m.append(" — resize is grow-only");
                m
            },
            DomainError::AdapterFailure(detail) => detail.clone(),
            DomainError::LockContention(path) => concat(
                "another operation is already in progress on ",
                path.as_str(),
            ),
            DomainError::KeyNotFound(label) => {
                let mut m = String::from_str("no FIDO2 key labeled ");
                let q = debug_quote(label.as_str());
                m.append(q.as_str());
                m.append(" is enrolled on this volume");
                m
            },
            DomainError::HookRejected { path, reason } => {
                let mut m = String::from_str("exec-hooks at ");
                m.append(path.as_str());
                m.append(" was rejected: ");
                m.append(reason_name_text(*reason));
                m
            },
            DomainError::RollbackCleanupAlsoFailed { original, .. } => original.message(),
        }
    }

    /// Wraps `self` to record that a best-effort cleanup step (`operation`)
    /// also failed while unwinding from it. `self` stays the primary cause;
    /// the cleanup failure is kept as its message.
    pub fn with_rollback_cleanup_failure(self, operation: &'static str, close_err: DomainError) -> (r: DomainError)
        ensures
            r == (DomainError::RollbackCleanupAlsoFailed {
                original: Box::new(self),
                operation,
                close_detail: r->close_detail,
            }),
            r->close_detail@ == message_text(close_err),
    {
        let close_detail = close_err.message();
        DomainError::RollbackCleanupAlsoFailed { original: Box::new(self), operation, close_detail }
    }
}

/// `items` each Debug-quoted, separated by `", "`.
pub open spec fn quoted_list(items: Seq<Seq<char>>) -> Seq<char>
    decreases items.len(),
{
    if items.len() == 0 {
        seq![]
    } else if items.len() == 1 {
        debug_quoted(items[0])
    } else {
        quoted_list(items.drop_last()) + ", "@ + debug_quoted(items.last())
    }
}

/// What the derived `Debug` renders an error as.
pub open spec fn debug_of(e: DomainError) -> Seq<char>
    decreases e,
{
    match e {
        DomainError::PreflightFailed(missing) => "PreflightFailed(["@ + quoted_list(
            views(missing@),
        ) + "])"@,
        DomainError::DestinationExists(path) => "DestinationExists("@ + debug_quoted(path@)
            + ")"@,
        DomainError::LastKeyslotGuard => "LastKeyslotGuard"@,
        DomainError::DeviceAlreadyFormatted(path) => "DeviceAlreadyFormatted("@ + debug_quoted(
            path@,
        ) + ")"@,
        DomainError::DeviceConfirmationRequired => "DeviceConfirmationRequired"@,
        DomainError::DeviceSizeExceedsCapacity { path, requested, capacity } =>
            "DeviceSizeExceedsCapacity { path: "@ + debug_quoted(path@) + ", requested: "@
                + decimal(requested as nat) + ", capacity: "@ + decimal(capacity as nat) + " }"@,
        DomainError::DeviceTooSmall { path, size } => "DeviceTooSmall { path: "@ + debug_quoted(
            path@,
        ) + ", size: "@ + decimal(size as nat) + " }"@,
        DomainError::ResizeMustGrow { path, requested, current_size } =>
            "ResizeMustGrow { path: "@ + debug_quoted(path@) + ", requested: "@ + decimal(
                requested as nat,
            ) + ", current_size: "@ + decimal(current_size as nat) + " }"@,
        DomainError::AdapterFailure(detail) => "AdapterFailure("@ + debug_quoted(detail@) + ")"@,
        DomainError::LockContention(path) => "LockContention("@ + debug_quoted(path@) + ")"@,
        DomainError::KeyNotFound(label) => "KeyNotFound("@ + debug_quoted(label@) + ")"@,
        DomainError::HookRejected { path, reason } => "HookRejected { path: "@ + debug_quoted(
            path@,
        ) + ", reason: "@ + reason_name(reason) + " }"@,
        DomainError::RollbackCleanupAlsoFailed { original, operation, close_detail } =>
            "RollbackCleanupAlsoFailed { original: "@ + debug_of(*original) + ", operation: "@
                + debug_quoted(operation@) + ", close_detail: "@ + debug_quoted(close_detail@)
                + " }"@,
    }
}

fn append_quoted_list(m: &mut String, items: &Vec<String>)
    ensures
        final(m)@ == old(m)@ + quoted_list(views(items@)),
{
    let mut i: usize = 0;
    let ghost start = m@;
    while i < items.len()
        invariant
            i <= items@.len(),
            m@ == start + quoted_list(views(items@.subrange(0, i as int))),
        decreases items.len() - i,
    {
        let ghost prev = views(items@.subrange(0, i as int));
        let ghost next = views(items@.subrange(0, i + 1));
        assert(next.drop_last() =~= prev);
        assert(next.last() == items@[i as int]@);
        if i > 0 {
            m.append(", ");
        } else {
            assert(next.len() == 1);
        }
        let q = debug_quote(items[i].as_str());
        m.append(q.as_str());
        i = i + 1;
    }
    assert(items@.subrange(0, i as int) =~= items@);
}

fn append_field_str(m: &mut String, before: &str, value: &str)
    ensures
        final(m)@ == old(m)@ + before@ + debug_quoted(value@),
{
    m.append(before);
    let q = debug_quote(value);
    m.append(q.as_str());
}

impl DomainError {
    /// What the derived `Debug` renders this error as.
    pub fn debug_text(&self) -> (t: String)
        ensures
            t@ == debug_of(*self),
        decreases *self,
    {
        let mut m = String::new();
        match self {
            DomainError::PreflightFailed(missing) => {
                m.append("PreflightFailed([");
                append_quoted_list(&mut m, missing);
                m.append("])");
            },
            DomainError::DestinationExists(path) => {
                append_field_str(&mut m, "DestinationExists(", path.as_str());
                m.append(")");
            },
            DomainError::LastKeyslotGuard => {
                m.append("LastKeyslotGuard");
            },
            DomainError::DeviceAlreadyFormatted(path) => {
                append_field_str(&mut m, "DeviceAlreadyFormatted(", path.as_str());
                m.append(")");
            },
            DomainError::DeviceConfirmationRequired => {
                m.append("DeviceConfirmationRequired");
            },
            DomainError::DeviceSizeExceedsCapacity { path, requested, capacity } => {
                append_field_str(&mut m, "DeviceSizeExceedsCapacity { path: ", path.as_str());
                m.append(", requested: ");
                push_decimal(&mut m, *requested);
                m.append(", capacity: ");
                push_decimal(&mut m, *capacity);
                m.append(" }");
            },
            DomainError::DeviceTooSmall { path, size } => {
                append_field_str(&mut m, "DeviceTooSmall { path: ", path.as_str());
                m.append(", size: ");
                push_decimal(&mut m, *size);
                m.append(" }");
            },
            DomainError::ResizeMustGrow { path, requested, current_size } => {
                append_field_str(&mut m, "ResizeMustGrow { path: ", path.as_str());
                m.append(", requested: ");
                push_decimal(&mut m, *requested);
                m.append(", current_size: ");
                push_decimal(&mut m, *current_size);
                m.append(" }");
            },
            DomainError::AdapterFailure(detail) => {
                append_field_str(&mut m, "AdapterFailure(", detail.as_str());
                m.append(")");
            },
            DomainError::LockContention(path) => {
                append_field_str(&mut m, "LockContention(", path.as_str());
                m.append(")");
            },
            DomainError::KeyNotFound(label) => {
                append_field_str(&mut m, "KeyNotFound(", label.as_str());
                m.append(")");
            },
            DomainError::HookRejected { path, reason } => {
                append_field_str(&mut m, "HookRejected { path: ", path.as_str());
                m.append(", reason: ");
                m.append(reason_name_text(*reason));
                m.append(" }");
            },
            DomainError::RollbackCleanupAlsoFailed { original, operation, close_detail } => {
                m.append("RollbackCleanupAlsoFailed { original: ");
                let inner = original.debug_text();
                m.append(inner.as_str());
                append_field_str(&mut m, ", operation: ", operation);
                append_field_str(&mut m, ", close_detail: ", close_detail.as_str());
                m.append(" }");
            },
        }
        m
    }
}

/// `r` is the outcome of a step that answered `primary` followed by a
/// cleanup `operation` that answered `cleanup`.
pub open spec fn with_cleanup(
    primary: Result<(), DomainError>,
    cleanup: Result<(), DomainError>,
    operation: &'static str,
    r: Result<(), DomainError>,
) -> bool {
    match primary {
        Ok(_) => r == cleanup,
        Err(e) => r matches Err(x) && cleanup_recorded(e, cleanup, operation, x),
    }
}

/// The outcome of a step followed by a cleanup step that always runs: the
/// step's own failure stays the primary cause (with a failed cleanup
/// recorded on it); after a successful step, the cleanup's outcome is the
/// outcome.
pub fn outcome_with_cleanup(
    primary: Result<(), DomainError>,
    cleanup: Result<(), DomainError>,
    operation: &'static str,
) -> (r: Result<(), DomainError>)
    ensures
        primary is Ok ==> r == cleanup,
        primary is Err && cleanup is Ok ==> r == primary,
        primary is Err && cleanup is Err ==> (r matches Err(
            DomainError::RollbackCleanupAlsoFailed { original, operation: op, close_detail },
        ) && *original == primary->Err_0 && op == operation && close_detail@ == message_text(
            cleanup->Err_0,
        )),
        primary matches Err(e) ==> (r matches Err(x) && cleanup_recorded(e, cleanup, operation, x)),
        with_cleanup(primary, cleanup, operation, r),
{
    match primary {
        Ok(()) => cleanup,
        Err(e) => match cleanup {
            Ok(()) => Err(e),
            Err(c) => Err(e.with_rollback_cleanup_failure(operation, c)),
        },
    }
}

/// `r` is `err` with the outcome of the cleanup `operation` recorded on it:
/// `err` itself after a successful cleanup, else `err` wrapped with the
/// cleanup's message.
pub open spec fn cleanup_recorded(
    err: DomainError,
    cleanup: Result<(), DomainError>,
    operation: &'static str,
    r: DomainError,
) -> bool {
    match cleanup {
        Ok(_) => r == err,
        Err(c) => r matches DomainError::RollbackCleanupAlsoFailed { original, operation: op, close_detail }
            && *original == err && op == operation && close_detail@ == message_text(c),
    }
}

/// A failure followed by a cleanup step that always runs: the failure
/// stays the cause, with a failed cleanup recorded on it.
pub fn failure_with_cleanup(
    err: DomainError,
    cleanup: Result<(), DomainError>,
    operation: &'static str,
) -> (r: DomainError)
    ensures
        cleanup is Ok ==> r == err,
        cleanup is Err ==> (r matches DomainError::RollbackCleanupAlsoFailed {
            original,
            operation: op,
            close_detail,
        } && *original == err && op == operation && close_detail@ == message_text(
            cleanup->Err_0,
        )),
        cleanup_recorded(err, cleanup, operation, r),
{
    match cleanup {
        Ok(()) => err,
        Err(c) => err.with_rollback_cleanup_failure(operation, c),
    }
}

} // verus!
