//! The dependency check every workflow runs first.
use vstd::prelude::*;

use crate::domain::errors::DomainError;
use crate::domain::types::Filesystem;
use crate::ports::fido2_backend::Fido2Backend;
use crate::ports::filesystem_backend::FilesystemBackend;
use crate::ports::journal::{extends, PortCall, Ports};
use crate::ports::luks_backend::LuksBackend;

verus! {

/// The missing dependencies a port reported (none for `Ok`).
pub open spec fn missing_of(r: Result<(), Vec<String>>) -> Seq<String> {
    match r {
        Ok(()) => seq![],
        Err(v) => v@,
    }
}

/// All three ports' missing dependencies, in port order.
pub open spec fn all_missing(
    a: Result<(), Vec<String>>,
    b: Result<(), Vec<String>>,
    c: Result<(), Vec<String>>,
) -> Seq<String> {
    missing_of(a) + missing_of(b) + missing_of(c)
}

fn append_missing(missing: &mut Vec<String>, r: Result<(), Vec<String>>)
    ensures
        final(missing)@ == old(missing)@ + missing_of(r),
{
    match r {
        Ok(()) => {},
        Err(mut errors) => {
            missing.append(&mut errors);
        },
    }
}

/// Combines the three ports' prerequisite reports: `Ok` exactly when no
/// dependency at all is missing; otherwise every missing dependency, from
/// every port, in port order.
pub fn combine_prerequisites(
    luks: Result<(), Vec<String>>,
    fido2: Result<(), Vec<String>>,
    fs: Result<(), Vec<String>>,
) -> (r: Result<(), DomainError>)
    ensures
        r is Ok <==> all_missing(luks, fido2, fs).len() == 0,
        r is Err ==> (r matches Err(DomainError::PreflightFailed(m)) && m@ == all_missing(
            luks,
            fido2,
            fs,
        )),
{
    let ghost all = all_missing(luks, fido2, fs);
    let mut missing: Vec<String> = Vec::new();
    append_missing(&mut missing, luks);
    append_missing(&mut missing, fido2);
    append_missing(&mut missing, fs);
    assert(missing@ =~= all);
    if missing.len() == 0 {
        Ok(())
    } else {
        Err(DomainError::PreflightFailed(missing))
    }
}

/// What the three ports could have reported and `check` then returned.
pub open spec fn check_outcome<L: LuksBackend, F: Fido2Backend, S: FilesystemBackend>(
    luks: &L,
    fido2: &F,
    fs: &S,
    filesystem: Option<Filesystem>,
    r: Result<(), DomainError>,
) -> bool {
    exists|a: Result<(), Vec<String>>, b: Result<(), Vec<String>>, c: Result<(), Vec<String>>|
        #![trigger call_ensures(L::check_prerequisites, (luks,), a), call_ensures(F::check_prerequisites, (fido2,), b), call_ensures(S::check_prerequisites, (fs, filesystem), c)]
        call_ensures(L::check_prerequisites, (luks,), a)
        && call_ensures(F::check_prerequisites, (fido2,), b)
        && call_ensures(S::check_prerequisites, (fs, filesystem), c)
        && (r is Ok <==> all_missing(a, b, c).len() == 0)
        && (r is Err ==> (r matches Err(DomainError::PreflightFailed(m)) && m@ == all_missing(a, b, c)))
}

/// The three entries of `log` from index `n` on are the preflight check's
/// calls (the LUKS, FIDO2 and filesystem prerequisite checks, in that
/// order), whose answers make `r`.
pub open spec fn preflight_at(
    log: Seq<PortCall>,
    n: int,
    filesystem: Option<Filesystem>,
    r: Result<(), DomainError>,
) -> bool {
    &&& 0 <= n && n + 3 <= log.len()
    &&& log[n] matches PortCall::LuksPrerequisites(a)
    &&& log[n + 1] matches PortCall::Fido2Prerequisites(b)
    &&& log[n + 2] matches PortCall::FsPrerequisites(f, c)
    &&& f == filesystem
    &&& (r is Ok <==> all_missing(a, b, c).len() == 0)
    &&& (r is Err ==> (r matches Err(DomainError::PreflightFailed(m)) && m@ == all_missing(a, b, c)))
}

/// The preflight check recorded at index `n` of `log` found nothing missing.
pub open spec fn passed_at(log: Seq<PortCall>, n: int) -> bool {
    &&& 0 <= n && n + 3 <= log.len()
    &&& log[n] matches PortCall::LuksPrerequisites(a)
    &&& log[n + 1] matches PortCall::Fido2Prerequisites(b)
    &&& log[n + 2] matches PortCall::FsPrerequisites(_, c)
    &&& all_missing(a, b, c).len() == 0
}

/// The calls `after` appends to `before` open with the preflight check,
/// and stop right there when it found a dependency missing.
pub open spec fn opens_with_preflight(
    before: Seq<PortCall>,
    after: Seq<PortCall>,
    filesystem: Option<Filesystem>,
) -> bool {
    let n = before.len() as int;
    &&& n + 3 <= after.len()
    &&& after[n] matches PortCall::LuksPrerequisites(a)
    &&& after[n + 1] matches PortCall::Fido2Prerequisites(b)
    &&& after[n + 2] matches PortCall::FsPrerequisites(f, c)
    &&& f == filesystem
    &&& (all_missing(a, b, c).len() > 0 ==> after.len() == n + 3)
}

/// Asks all three ports for their missing dependencies (none of them
/// short-circuits the others) and reports them together. `filesystem`
/// narrows the filesystem port's check to that filesystem's toolchain.
pub fn check<L: LuksBackend, F: Fido2Backend, S: FilesystemBackend>(
    ports: &mut Ports<'_, L, F, S>,
    filesystem: Option<Filesystem>,
) -> (r: Result<(), DomainError>)
    ensures
        r is Err ==> (r matches Err(DomainError::PreflightFailed(m)) && m@.len() > 0),
        check_outcome(old(ports).luks(), old(ports).fido2(), old(ports).fs(), filesystem, r),
        final(ports).keeps(*old(ports)),
        extends(old(ports).log(), final(ports).log()),
        final(ports).log().len() == old(ports).log().len() + 3,
        preflight_at(final(ports).log(), old(ports).log().len() as int, filesystem, r),
{
    let a = ports.luks_check_prerequisites();
    let b = ports.fido2_check_prerequisites();
    let c = ports.fs_check_prerequisites(filesystem);
    combine_prerequisites(a, b, c)
}

} // verus!
