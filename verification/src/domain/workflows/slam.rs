//! `slam`: the panic button — closes every open volume at once, signalling
//! whatever holds a busy mount through SIGTERM, SIGHUP, then SIGKILL.
use vstd::prelude::*;

use crate::domain::errors::DomainError;
use crate::domain::hooks::HookWarning;
use crate::domain::preflight;
use crate::domain::types::{MapperHandle, Pid, Signal};
use crate::domain::workflows::close::{
    close_hooks_outcome, is_not_currently_mounted, relocks_follow_unmounts, run_hooks_step, stops_close,
};
use crate::domain::workflows::close_all::CloseAllResults;
use crate::ports::fido2_backend::Fido2Backend;
use crate::ports::filesystem_backend::FilesystemBackend;
use crate::ports::journal::{
    extends, none_between, releasing, PortCall, Ports,
};
use crate::ports::luks_backend::LuksBackend;
use crate::text::{contains_chars, has_infix, lemma_infix_of_concat, to_chars};

verus! {

/// `c` with an ASCII capital turned into its small letter.
pub open spec fn ascii_lower(c: char) -> char {
    if 'A' <= c <= 'Z' {
        ((c as u32) + 32) as char
    } else {
        c
    }
}

/// Whether `err` reports a busy mount: an adapter failure whose message
/// contains `busy` in any letter case. (Lowering only ASCII letters finds
/// the same matches as full Unicode lowering: no other character lowers to
/// one of `b`, `u`, `s`, `y`.)
pub open spec fn busy(err: DomainError) -> bool {
    err matches DomainError::AdapterFailure(m) && has_infix(
        m@.map_values(|c: char| ascii_lower(c)),
        "busy"@,
    )
}

/// An unmount failure counts as a busy mount when its message says `busy`
/// anywhere in it, in lower case, capitalised or in capitals (`target is
/// busy.`, `Device or resource busy`); no other kind of error ever does.
pub proof fn law_busy_in_any_case(e: DomainError, before: Seq<char>, word: Seq<char>, after: Seq<char>)
    requires
        word == "busy"@ || word == "Busy"@ || word == "BUSY"@,
    ensures
        e matches DomainError::AdapterFailure(m) && m@ == before + word + after ==> busy(e),
        !(e is AdapterFailure) ==> !busy(e),
{
    reveal_strlit("busy");
    reveal_strlit("Busy");
    reveal_strlit("BUSY");
    let f = |c: char| ascii_lower(c);
    assert(word.map_values(f) =~= "busy"@);
    let s = before + word + after;
    assert(s.map_values(f) =~= before.map_values(f) + word.map_values(f) + after.map_values(f));
    lemma_infix_of_concat(before.map_values(f), word.map_values(f), after.map_values(f));
}

pub fn is_busy(err: &DomainError) -> (r: bool)
    ensures
        r == busy(*err),
{
    match err {
        DomainError::AdapterFailure(m) => {
            let chars = to_chars(m.as_str());
            let mut lowered: Vec<char> = Vec::new();
            let mut i: usize = 0;
            while i < chars.len()
                invariant
                    i <= chars@.len(),
                    lowered@ == chars@.subrange(0, i as int).map_values(|c: char| ascii_lower(c)),
                decreases chars.len() - i,
            {
                let c = chars[i];
                let l = if 'A' <= c && c <= 'Z' {
                    ((c as u32) + 32) as u8 as char
                } else {
                    c
                };
                lowered.push(l);
                i = i + 1;
                assert(lowered@ =~= chars@.subrange(0, i as int).map_values(
                    |c: char| ascii_lower(c),
                ));
            }
            assert(chars@.subrange(0, i as int) =~= chars@);
            let needle = to_chars("busy");
            contains_chars(lowered.as_slice(), needle.as_slice())
        },
        _ => false,
    }
}

/// The signal of each escalation round, in order.
pub open spec fn signal_of_round(round: int) -> Signal {
    if round == 0 {
        Signal::Sigterm
    } else if round == 1 {
        Signal::Sighup
    } else {
        Signal::Sigkill
    }
}

/// Slam escalates through three different signals, gentlest first:
/// SIGTERM, then SIGHUP, and SIGKILL in the third and last round.
pub proof fn law_escalation_order()
    ensures
        signal_of_round(0) == Signal::Sigterm,
        signal_of_round(1) == Signal::Sighup,
        signal_of_round(2) == Signal::Sigkill,
        forall|i: int, j: int|
            0 <= i < j < 3 ==> #[trigger] signal_of_round(i) != #[trigger] signal_of_round(j),
{
}

pub fn escalation_signal(round: usize) -> (s: Signal)
    requires
        round < 3,
    ensures
        s == signal_of_round(round as int),
{
    if round == 0 {
        Signal::Sigterm
    } else if round == 1 {
        Signal::Sighup
    } else {
        Signal::Sigkill
    }
}

/// Whether a holder may be signalled: never PID 0 or 1 (init).
pub open spec fn signalable(pid: Pid) -> bool {
    pid.0 > 1
}

/// The holders to signal, in order: every one but PIDs 0 and 1.
pub open spec fn targets_of(holders: Seq<Pid>) -> Seq<Pid>
    decreases holders.len(),
{
    if holders.len() == 0 {
        seq![]
    } else {
        let rest = targets_of(holders.drop_last());
        if signalable(holders.last()) {
            rest.push(holders.last())
        } else {
            rest
        }
    }
}

pub fn signal_targets(holders: &Vec<Pid>) -> (targets: Vec<Pid>)
    ensures
        targets@ == targets_of(holders@),
{
    let mut targets: Vec<Pid> = Vec::new();
    let mut i: usize = 0;
    while i < holders.len()
        invariant
            i <= holders@.len(),
            targets@ == targets_of(holders@.subrange(0, i as int)),
        decreases holders.len() - i,
    {
        let ghost pre = holders@.subrange(0, i as int);
        assert(holders@.subrange(0, i + 1).drop_last() =~= pre);
        if holders[i].0 > 1 {
            targets.push(holders[i]);
        }
        i = i + 1;
    }
    assert(holders@.subrange(0, i as int) =~= holders@);
    targets
}

/// Slam never signals PID 0 or 1, whatever the holders reported, and
/// signals every other holder it was told of.
pub proof fn law_never_signals_init(holders: Seq<Pid>)
    ensures
        forall|i: int| 0 <= i < targets_of(holders).len() ==> (#[trigger] targets_of(holders)[i]).0 > 1,
        forall|i: int| 0 <= i < holders.len() && signalable(#[trigger] holders[i]) ==> targets_of(holders).contains(holders[i]),
    decreases holders.len(),
{
    if holders.len() > 0 {
        let rest = holders.drop_last();
        law_never_signals_init(rest);
        assert forall|i: int| 0 <= i < holders.len() && signalable(#[trigger] holders[i]) implies targets_of(holders).contains(holders[i]) by {
            if i < holders.len() - 1 {
                assert(rest[i] == holders[i]);
                assert(targets_of(rest).contains(rest[i]));
                if signalable(holders.last()) {
                    let k = choose|k: int| 0 <= k < targets_of(rest).len() && targets_of(rest)[k] == rest[i];
                    assert(targets_of(holders)[k] == holders[i]);
                }
            } else {
                assert(targets_of(holders).last() == holders[i]);
            }
        }
    }
}

/// The port was asked to send `signal` to `pid`.
pub open spec fn signal_sent<S: FilesystemBackend>(fs: &S, pid: Pid, signal: Signal) -> bool {
    exists|x: Result<(), DomainError>| #[trigger] call_ensures(S::signal_process, (fs, pid, signal), x)
}

/// `r` is what the escalation returns from round `round` on, after an
/// unmount that failed with `last`, for some answers the ports gave: after
/// the last round, `last`; otherwise the holders of the mount point are
/// asked for (their lookup failure is the answer; no holders leaves `last`
/// as the answer); every holder but PIDs 0 and 1 gets the round's signal;
/// then the unmount is retried: when it goes through (or finds the volume
/// unmounted) the re-lock's answer, else the next round on its failure.
pub open spec fn escalation_from<L: LuksBackend, S: FilesystemBackend>(
    luks: &L,
    fs: &S,
    mapper: &MapperHandle,
    mountpoint: Seq<char>,
    round: nat,
    last: DomainError,
    r: Result<(), DomainError>,
) -> bool
    decreases 3 - round,
{
    if round >= 3 {
        r == Err::<(), DomainError>(last)
    } else {
        exists|p: &str, holders: Result<Vec<Pid>, DomainError>|
            #[trigger] call_ensures(S::processes_using, (fs, p), holders) && p@ == mountpoint
                && match holders {
                Err(e) => r == Err::<(), DomainError>(e),
                Ok(v) => if v@.len() == 0 {
                    r == Err::<(), DomainError>(last)
                } else {
                    (forall|j: int|
                        0 <= j < targets_of(v@).len() ==> signal_sent(
                            fs,
                            #[trigger] targets_of(v@)[j],
                            signal_of_round(round as int),
                        )) && exists|u: Result<(), DomainError>|
                        #[trigger] call_ensures(S::umount, (fs, mapper), u) && if !stops_close(u) {
                            call_ensures(L::close, (luks, mapper), r)
                        } else {
                            escalation_from(luks, fs, mapper, mountpoint, round + 1, u->Err_0, r)
                        }
                },
            }
    }
}

/// `r` is what the escalation after a busy unmount failure `first`
/// returns: the mount point lookup's failure, else the rounds.
pub open spec fn escalation_result<L: LuksBackend, S: FilesystemBackend>(
    luks: &L,
    fs: &S,
    mapper: &MapperHandle,
    first: DomainError,
    r: Result<(), DomainError>,
) -> bool {
    exists|m: Result<String, DomainError>|
        #[trigger] call_ensures(S::mount_point_of, (fs, mapper), m) && match m {
            Err(e) => r == Err::<(), DomainError>(e),
            Ok(mp) => escalation_from(luks, fs, mapper, mp@, 0, first, r),
        }
}

/// `r` is what slamming `mapper` returns for some answers the ports gave:
/// a stopping hooks failure; after the first unmount, the re-lock's answer
/// when it went through (or found the volume unmounted), the unmount's
/// failure when it was not "busy", otherwise what the escalation ended on.
pub open spec fn slam_outcome<L: LuksBackend, S: FilesystemBackend, W: Fn(HookWarning)>(
    luks: &L,
    fs: &S,
    warn: &W,
    mapper: &MapperHandle,
    r: Result<(), DomainError>,
) -> bool {
    exists|h: Result<(), DomainError>|
        #[trigger] close_hooks_outcome(fs, warn, mapper, h) && if stops_close(h) {
            r == h
        } else {
            exists|u: Result<(), DomainError>|
                #[trigger] call_ensures(S::umount, (fs, mapper), u) && if !stops_close(u) {
                    call_ensures(L::close, (luks, mapper), r)
                } else if !busy(u->Err_0) {
                    r == u
                } else {
                    escalation_result(luks, fs, mapper, u->Err_0, r)
                }
        }
}

/// `outcome` is what slamming `mapper` under its own lock returns.
pub open spec fn locked_slam_outcome<L: LuksBackend, S: FilesystemBackend, W: Fn(HookWarning)>(
    luks: &L,
    fs: &S,
    warn: &W,
    mapper: MapperHandle,
    outcome: Result<(), DomainError>,
) -> bool {
    exists|p: &str, lock: Result<S::LockGuard, DomainError>|
        #[trigger] call_ensures(S::lock_target, (fs, p), lock) && p@ == mapper.source_path@
            && match lock {
            Err(e) => outcome == Err::<(), DomainError>(e),
            Ok(_) => slam_outcome(luks, fs, warn, &mapper, outcome),
        }
}

/// `c` is the sending of `signal` to `pid`.
pub open spec fn sends(c: PortCall, pid: Pid, signal: Signal) -> bool {
    c matches PortCall::SignalProcess(p, s, _) && p == pid && s == signal
}

/// From index `k` of `log` on, one round's signalling and retry: `signal`
/// to each of `targets`, once each, in order and nothing else; the pause;
/// then the retried unmount of `mapper`, followed (when it went through, or
/// found the volume unmounted) by the re-lock of `mapper`.
pub open spec fn round_calls(
    log: Seq<PortCall>,
    k: int,
    mapper: MapperHandle,
    targets: Seq<Pid>,
    signal: Signal,
) -> bool {
    let u = k + targets.len();
    &&& 0 <= k && u + 1 < log.len()
    &&& forall|i: int| 0 <= i < targets.len() ==> sends(log[k + i], #[trigger] targets[i], signal)
    &&& log[u] is EscalationPause
    &&& log[u + 1] matches PortCall::Umount(m, retried)
    &&& m == mapper
    &&& !stops_close(retried) ==> u + 2 < log.len() && (log[u + 2] matches PortCall::Close(m2, _)
        && m2 == mapper)
}

/// From index `j` of `log` to its end, the escalation's calls from round
/// `round` on: after the last round, none; otherwise the holders of
/// `mountpoint` are asked for (a failed lookup, or no holders, ends the
/// calls); then the round's signal (SIGTERM, SIGHUP, then SIGKILL) goes to
/// each holder but PIDs 0 and 1, the pause, and the retried unmount; an
/// unmount that went through is followed only by the re-lock, any other
/// failure by the next round.
pub open spec fn escalation_calls(
    log: Seq<PortCall>,
    j: int,
    mapper: MapperHandle,
    mountpoint: Seq<char>,
    round: nat,
) -> bool
    decreases 3 - round,
{
    if round >= 3 {
        log.len() == j
    } else {
        &&& 0 <= j < log.len()
        &&& log[j] matches PortCall::ProcessesUsing(p, holders)
        &&& p == mountpoint
        &&& match holders {
            Err(_) => log.len() == j + 1,
            Ok(v) => if v@.len() == 0 {
                log.len() == j + 1
            } else {
                let u = j + 1 + targets_of(v@).len();
                &&& round_calls(log, j + 1, mapper, targets_of(v@), signal_of_round(round as int))
                &&& log[u + 1] matches PortCall::Umount(_, retried)
                &&& if !stops_close(retried) {
                    log.len() == u + 3
                } else {
                    escalation_calls(log, u + 2, mapper, mountpoint, round + 1)
                }
            },
        }
    }
}

/// From index `h` of `log` (where the hooks step ended) to its end, the
/// rest of slamming `mapper`: nothing when the hooks step stopped it;
/// otherwise the unmount, then only the re-lock when it went through (or
/// found the volume unmounted), nothing more on a failure that is not
/// "busy", else the mount point's lookup and the escalation from round 0.
pub open spec fn slam_after_hooks(log: Seq<PortCall>, h: int, mapper: MapperHandle) -> bool {
    &&& 0 <= h <= log.len()
    &&& h < log.len() ==> (log[h] matches PortCall::Umount(m, first) && m == mapper && if !stops_close(
        first,
    ) {
        log.len() == h + 2 && (log[h + 1] matches PortCall::Close(m2, _) && m2 == mapper)
    } else if !busy(first->Err_0) {
        log.len() == h + 1
    } else {
        h + 1 < log.len() && (log[h + 1] matches PortCall::MountPointOf(m3, mp) && m3 == mapper
            && match mp {
            Err(_) => log.len() == h + 2,
            Ok(p) => escalation_calls(log, h + 2, mapper, p@, 0),
        })
    })
}

/// In an escalation's calls, every re-lock comes right after the unmount of
/// the same mapping.
proof fn lemma_escalation_relocks(
    log: Seq<PortCall>,
    j: int,
    mapper: MapperHandle,
    mountpoint: Seq<char>,
    round: nat,
)
    requires
        escalation_calls(log, j, mapper, mountpoint, round),
    ensures
        relocks_follow_unmounts(log, j),
    decreases 3 - round,
{
    if round < 3 {
        if let PortCall::ProcessesUsing(_, Ok(v)) = log[j] {
            if v@.len() > 0 {
                let t = targets_of(v@);
                let u = j + 1 + t.len();
                if let PortCall::Umount(_, retried) = log[u + 1] {
                    if stops_close(retried) {
                        lemma_escalation_relocks(log, u + 2, mapper, mountpoint, round + 1);
                    }
                }
                assert forall|i: int| j <= i < log.len() && (#[trigger] log[i]) is Close implies j <= i
                    - 1 && (log[i - 1] matches PortCall::Umount(m, _) && m == log[i]->Close_0) by {
                    if j + 1 <= i < u {
                        assert(sends(log[j + 1 + (i - j - 1)], t[i - j - 1], signal_of_round(round as int)));
                    }
                }
            }
        }
    }
}

/// Slamming a mapping re-locks it only right after unmounting it.
proof fn lemma_slam_relocks(log: Seq<PortCall>, n: int, h: int, mapper: MapperHandle)
    requires
        0 <= n <= h,
        none_between(log, n, h, releasing()),
        slam_after_hooks(log, h, mapper),
    ensures
        relocks_follow_unmounts(log, n),
{
    if h + 1 < log.len() {
        if let PortCall::MountPointOf(_, Ok(p)) = log[h + 1] {
            if let PortCall::Umount(_, first) = log[h] {
                if stops_close(first) && busy(first->Err_0) {
                    lemma_escalation_relocks(log, h + 2, mapper, p@, 0);
                }
            }
        }
    }
    assert forall|i: int| n <= i < log.len() && (#[trigger] log[i]) is Close implies n <= i - 1 && (log[i
        - 1] matches PortCall::Umount(m, _) && m == log[i]->Close_0) by {
        if i < h {
            assert(!releasing()(log[i]));
        }
    }
}

/// The escalation from round `round` after the unmount failure `last_err`:
/// ask for the mount point's holders, signal each (but PIDs 0 and 1) with
/// the round's signal, pause, and retry the unmount; stop and re-lock once
/// it goes through (or finds the volume unmounted), else go on to the next
/// round; after SIGKILL's round, or with no holders left, report the last
/// failure.
fn escalate<L: LuksBackend, F: Fido2Backend, S: FilesystemBackend>(
    mapper: &MapperHandle,
    mountpoint: &str,
    round: usize,
    last_err: DomainError,
    ports: &mut Ports<'_, L, F, S>,
) -> (r: Result<(), DomainError>)
    requires
        round <= 3,
    ensures
        final(ports).keeps(*old(ports)),
        extends(old(ports).log(), final(ports).log()),
        escalation_from(old(ports).luks(), old(ports).fs(), mapper, mountpoint@, round as nat, last_err, r),
        escalation_calls(final(ports).log(), old(ports).log().len() as int, *mapper, mountpoint@, round as nat),
    decreases 3 - round,
{
    let ghost j = ports.log().len() as int;
    if round >= 3 {
        return Err(last_err);
    }
    let found = ports.processes_using(mountpoint);
    let ghost found_answer = found;
    let holders = match found {
        Ok(holders) => holders,
        Err(e) => {
            assert(escalation_from(old(ports).luks(), old(ports).fs(), mapper, mountpoint@, round as nat, last_err, Err(e)));
            return Err(e);
        },
    };
    if holders.len() == 0 {
        assert(escalation_from(old(ports).luks(), old(ports).fs(), mapper, mountpoint@, round as nat, last_err, Err(last_err)));
        return Err(last_err);
    }
    let signal = escalation_signal(round);
    let targets = signal_targets(&holders);
    proof {
        law_never_signals_init(holders@);
    }
    let mut k: usize = 0;
    while k < targets.len()
        invariant
            ports.keeps(*old(ports)),
            extends(old(ports).log(), ports.log()),
            j == old(ports).log().len(),
            ports.log().len() == j + 1 + k,
            ports.log()[j] == PortCall::ProcessesUsing(mountpoint@, found_answer),
            k <= targets@.len(),
            targets@ == targets_of(holders@),
            forall|i: int| 0 <= i < targets@.len() ==> (#[trigger] targets@[i]).0 > 1,
            forall|i: int| 0 <= i < k ==> signal_sent(old(ports).fs(), #[trigger] targets@[i], signal),
            forall|i: int| 0 <= i < k ==> sends(ports.log()[j + 1 + i], #[trigger] targets@[i], signal),
        decreases targets.len() - k,
    {
        let ghost before = ports.log();
        let _ = ports.signal_process(targets[k], signal);
        assert(signal_sent(old(ports).fs(), targets@[k as int], signal));
        assert forall|i: int| 0 <= i < k + 1 implies sends(ports.log()[j + 1 + i], #[trigger] targets@[i], signal) by {
            if i < k {
                assert(ports.log()[j + 1 + i] == before[j + 1 + i]);
            }
        }
        k = k + 1;
    }
    ports.escalation_pause();
    let retried = ports.umount(mapper);
    let ghost after_retry = ports.log();
    let ghost u = j + 1 + targets@.len();
    assert(after_retry[u] is EscalationPause);
    match retried {
        Ok(()) => {
            let r = ports.close(mapper);
            assert forall|i: int| 0 <= i < targets@.len() implies sends(ports.log()[j + 1 + i], #[trigger] targets@[i], signal) by {
                assert(ports.log()[j + 1 + i] == after_retry[j + 1 + i]);
            }
            assert(escalation_from(old(ports).luks(), old(ports).fs(), mapper, mountpoint@, round as nat, last_err, r));
            r
        },
        Err(err) => {
            if is_not_currently_mounted(&err) {
                let r = ports.close(mapper);
                assert forall|i: int| 0 <= i < targets@.len() implies sends(ports.log()[j + 1 + i], #[trigger] targets@[i], signal) by {
                    assert(ports.log()[j + 1 + i] == after_retry[j + 1 + i]);
                }
                assert(escalation_from(old(ports).luks(), old(ports).fs(), mapper, mountpoint@, round as nat, last_err, r));
                return r;
            }
            let r = escalate(mapper, mountpoint, round + 1, err, ports);
            assert forall|i: int| 0 <= i < targets@.len() implies sends(ports.log()[j + 1 + i], #[trigger] targets@[i], signal) by {
                assert(ports.log()[j + 1 + i] == after_retry[j + 1 + i]);
            }
            assert(ports.log()[j] == after_retry[j]);
            assert(ports.log()[u] == after_retry[u]);
            assert(ports.log()[u + 1] == after_retry[u + 1]);
            assert(escalation_from(old(ports).luks(), old(ports).fs(), mapper, mountpoint@, round as nat, last_err, r));
            r
        },
    }
}

/// The per-mapping slam: the hooks step once, then unmount; while the
/// unmount reports the mount busy, each round signals every holder (but
/// PIDs 0 and 1) with the round's signal, pauses, and retries. It stops as
/// soon as the unmount succeeds (or reports the volume already unmounted)
/// and then re-locks; when no holders remain, or after SIGKILL, it reports
/// the last unmount failure. A failure that is not "busy" is reported at
/// once, without signalling anyone.
fn slam_mapping<L: LuksBackend, F: Fido2Backend, S: FilesystemBackend, W: Fn(HookWarning)>(
    mapper: &MapperHandle,
    warn: &W,
    ports: &mut Ports<'_, L, F, S>,
) -> (r: Result<(), DomainError>)
    requires
        forall|w: HookWarning| #[trigger] warn.requires((w,)),
    ensures
        final(ports).keeps(*old(ports)),
        extends(old(ports).log(), final(ports).log()),
        slam_outcome(old(ports).luks(), old(ports).fs(), warn, mapper, r),
        exists|h: int|
            #[trigger] slam_after_hooks(final(ports).log(), h, *mapper) && old(ports).log().len() <= h
                && none_between(final(ports).log(), old(ports).log().len() as int, h, releasing()),
        relocks_follow_unmounts(final(ports).log(), old(ports).log().len() as int),
{
    let ghost n = ports.log().len() as int;
    let hooks = run_hooks_step(mapper, warn, ports);
    let ghost h = ports.log().len() as int;
    let ghost quiet = ports.log();
    match hooks {
        Ok(()) => {},
        Err(err) => {
            if !is_not_currently_mounted(&err) {
                proof {
                    assert(slam_after_hooks(ports.log(), h, *mapper));
                    lemma_slam_relocks(ports.log(), n, h, *mapper);
                }
                return Err(err);
            }
        },
    }
    let unmounted = ports.umount(mapper);
    let first = match unmounted {
        Ok(()) => {
            let r = ports.close(mapper);
            proof {
                assert(ports.log()[h] == PortCall::Umount(*mapper, unmounted));
                assert(slam_after_hooks(ports.log(), h, *mapper));
                assert(none_between(ports.log(), n, h, releasing())) by {
                    assert forall|i: int| n <= i < h implies !releasing()(#[trigger] ports.log()[i]) by {
                        assert(ports.log()[i] == quiet[i]);
                    }
                }
                lemma_slam_relocks(ports.log(), n, h, *mapper);
            }
            return r;
        },
        Err(err) => err,
    };
    if is_not_currently_mounted(&first) {
        let r = ports.close(mapper);
        proof {
            assert(ports.log()[h] == PortCall::Umount(*mapper, unmounted));
            assert(slam_after_hooks(ports.log(), h, *mapper));
            assert(none_between(ports.log(), n, h, releasing())) by {
                assert forall|i: int| n <= i < h implies !releasing()(#[trigger] ports.log()[i]) by {
                    assert(ports.log()[i] == quiet[i]);
                }
            }
            lemma_slam_relocks(ports.log(), n, h, *mapper);
        }
        return r;
    }
    if !is_busy(&first) {
        proof {
            assert(slam_after_hooks(ports.log(), h, *mapper));
            assert(none_between(ports.log(), n, h, releasing())) by {
                assert forall|i: int| n <= i < h implies !releasing()(#[trigger] ports.log()[i]) by {
                    assert(ports.log()[i] == quiet[i]);
                }
            }
            lemma_slam_relocks(ports.log(), n, h, *mapper);
        }
        return Err(first);
    }
    let found_mountpoint = ports.mount_point_of(mapper);
    let ghost looked_up = ports.log();
    let mountpoint = match found_mountpoint {
        Ok(mountpoint) => mountpoint,
        Err(e) => {
            proof {
                assert(slam_after_hooks(ports.log(), h, *mapper));
                assert(none_between(ports.log(), n, h, releasing())) by {
                    assert forall|i: int| n <= i < h implies !releasing()(#[trigger] ports.log()[i]) by {
                        assert(ports.log()[i] == quiet[i]);
                    }
                }
                lemma_slam_relocks(ports.log(), n, h, *mapper);
            }
            return Err(e);
        },
    };
    let r = escalate(mapper, mountpoint.as_str(), 0, first, ports);
    proof {
        assert(ports.log()[h] == looked_up[h]);
        assert(ports.log()[h + 1] == looked_up[h + 1]);
        assert(slam_after_hooks(ports.log(), h, *mapper));
        assert(none_between(ports.log(), n, h, releasing())) by {
            assert forall|i: int| n <= i < h implies !releasing()(#[trigger] ports.log()[i]) by {
                assert(ports.log()[i] == quiet[i]);
            }
        }
        lemma_slam_relocks(ports.log(), n, h, *mapper);
    }
    r
}

/// Between indices `a` and `b` of `log`, mapping `m` was slammed: its lock
/// was asked for at `a`; when it was taken, the slam's calls for `m` (the
/// hooks step, then `slam_after_hooks`) fill the rest of the stretch.
pub open spec fn slammed_between(log: Seq<PortCall>, a: int, b: int, m: MapperHandle) -> bool {
    &&& 0 <= a < b <= log.len()
    &&& log[a] matches PortCall::LockTarget(p, locked)
    &&& p == m.source_path@
    &&& if !locked {
        b == a + 1
    } else {
        exists|h: int|
            #[trigger] slam_after_hooks(log.subrange(0, b), h, m) && a + 1 <= h && none_between(
                log.subrange(0, b),
                a + 1,
                h,
                releasing(),
            )
    }
}

/// `bounds` cuts `log` into one stretch per mapping of `mappings`, in
/// order, each the slam of its mapping.
pub open spec fn slammed_each(log: Seq<PortCall>, bounds: Seq<int>, mappings: Seq<MapperHandle>) -> bool {
    &&& bounds.len() == mappings.len() + 1
    &&& forall|k: int|
        0 <= k < mappings.len() ==> slammed_between(log, bounds[k], bounds[k + 1], #[trigger] mappings[k])
}

/// Slams every open mapping, each under its own lock, with no confirmation
/// of any kind. Like `close-all`, every discovered mapping is reported, in
/// order, with its own outcome; a failed discovery is this call's error.
pub fn run<L: LuksBackend, F: Fido2Backend, S: FilesystemBackend, W: Fn(HookWarning)>(
    warn: &W,
    ports: &mut Ports<'_, L, F, S>,
) -> (r: Result<CloseAllResults, DomainError>)
    requires
        forall|w: HookWarning| #[trigger] warn.requires((w,)),
    ensures
        final(ports).keeps(*old(ports)),
        extends(old(ports).log(), final(ports).log()),
        preflight::opens_with_preflight(old(ports).log(), final(ports).log(), None),
        relocks_follow_unmounts(final(ports).log(), old(ports).log().len() as int),
        preflight::passed_at(final(ports).log(), old(ports).log().len() as int) ==> (final(ports).log()[old(ports).log().len() + 3int] matches PortCall::ListOpenMappings(listing) && match listing {
            Err(_) => final(ports).log().len() == old(ports).log().len() + 4,
            Ok(mappings) => exists|bounds: Seq<int>|
                #[trigger] slammed_each(final(ports).log(), bounds, mappings@) && bounds[0]
                    == old(ports).log().len() + 4 && bounds.last() == final(ports).log().len(),
        }),
        exists|pre: Result<(), DomainError>|
            #[trigger] preflight::check_outcome(old(ports).luks(), old(ports).fido2(), old(ports).fs(), None, pre) && match pre {
                Err(e) => r == Err::<CloseAllResults, DomainError>(e),
                Ok(_) => exists|listing: Result<Vec<MapperHandle>, DomainError>|
                    #[trigger] call_ensures(L::list_open_mappings, (old(ports).luks(),), listing) && match listing {
                        Err(e) => r == Err::<CloseAllResults, DomainError>(e),
                        Ok(mappings) => r matches Ok(results) && results@.len() == mappings@.len()
                            && forall|i: int| 0 <= i < mappings@.len() ==> (#[trigger] results@[i]).0
                            == mappings@[i] && locked_slam_outcome(old(ports).luks(), old(ports).fs(), warn, mappings@[i], results@[i].1),
                    },
            },
{
    preflight::check(ports, None)?;
    let listed = ports.list_open_mappings();
    let ghost listing = listed;
    let mut rest = match listed {
        Ok(rest) => rest,
        Err(e) => {
            return Err(e);
        },
    };
    let ghost all = rest@;
    let ghost listed_log = ports.log();
    let ghost mut bounds: Seq<int> = seq![ports.log().len() as int];
    let mut results: CloseAllResults = Vec::new();
    while rest.len() > 0
        invariant
            ports.keeps(*old(ports)),
            extends(old(ports).log(), ports.log()),
            preflight::opens_with_preflight(old(ports).log(), ports.log(), None),
            ports.log().len() > old(ports).log().len() + 3,
            relocks_follow_unmounts(ports.log(), old(ports).log().len() as int),
            results@.len() + rest@.len() == all.len(),
            rest@ == all.subrange(results@.len() as int, all.len() as int),
            extends(listed_log, ports.log()),
            listed_log.len() == old(ports).log().len() + 4,
            listed_log[old(ports).log().len() + 3int] == PortCall::ListOpenMappings(listing),
            listing matches Ok(v) && v@ == all,
            bounds.len() == results@.len() + 1,
            bounds[0] == listed_log.len(),
            bounds.last() == ports.log().len(),
            slammed_each(ports.log(), bounds, all.subrange(0, results@.len() as int)),
            forall|i: int| 0 <= i < results@.len() ==> (#[trigger] results@[i]).0 == all[i]
                && locked_slam_outcome(old(ports).luks(), old(ports).fs(), warn, all[i], results@[i].1),
            forall|w: HookWarning| #[trigger] warn.requires((w,)),
        decreases rest.len(),
    {
        let mapper = rest.remove(0);
        assert(mapper == all[results@.len() as int]);
        let ghost at_start = ports.log();
        let locked = ports.lock_target(mapper.source_path.as_str());
        let ghost after_lock = ports.log();
        let outcome = match locked {
            Ok(_lock) => slam_mapping(&mapper, warn, ports),
            Err(err) => Err(err),
        };
        assert forall|i: int|
            old(ports).log().len() <= i < ports.log().len() && (#[trigger] ports.log()[i]) is Close implies old(
            ports,
        ).log().len() <= i - 1 && (ports.log()[i - 1] matches PortCall::Umount(m, _) && m
            == ports.log()[i]->Close_0) by {
            if i < at_start.len() {
                assert(ports.log()[i] == at_start[i]);
                assert(ports.log()[i - 1] == at_start[i - 1]);
            } else if i == at_start.len() {
                assert(ports.log()[i] == after_lock[i]);
            }
        }
        proof {
            let n = old(ports).log().len() as int;
            assert(extends(at_start, ports.log()));
            assert(ports.log()[n] == at_start[n] && ports.log()[n + 1] == at_start[n + 1]
                && ports.log()[n + 2] == at_start[n + 2]);
            assert(ports.log()[n + 3] == listed_log[n + 3]);
            let done = results@.len() as int;
            let a = at_start.len() as int;
            let b = ports.log().len() as int;
            assert(ports.log()[a] == after_lock[a]);
            assert(ports.log().subrange(0, b) =~= ports.log());
            assert(slammed_between(ports.log(), a, b, all[done]));
            let old_bounds = bounds;
            bounds = bounds.push(b);
            assert forall|k: int| 0 <= k < done + 1 implies slammed_between(
                ports.log(),
                bounds[k],
                bounds[k + 1],
                #[trigger] all.subrange(0, done + 1)[k],
            ) by {
                if k < done {
                    assert(all.subrange(0, done)[k] == all.subrange(0, done + 1)[k]);
                    assert(slammed_between(at_start, old_bounds[k], old_bounds[k + 1], all.subrange(0, done)[k]));
                    assert(ports.log().subrange(0, bounds[k + 1]) =~= at_start.subrange(0, bounds[k + 1]));
                    assert(ports.log()[bounds[k]] == at_start[bounds[k]]);
                }
            }
        }
        results.push((mapper, outcome));
    }
    proof {
        assert(all.subrange(0, results@.len() as int) =~= all);
        assert(ports.log()[old(ports).log().len() + 3int] == listed_log[old(ports).log().len() + 3int]);
    }
    Ok(results)
}

} // verus!
