//! Pure logic behind per-volume `bind-hooks`/`exec-hooks` automation:
//! parsing the `bind-hooks` file, the `exec-hooks` guardrail, and the
//! containment check on resolved bind-hook paths.
use vstd::prelude::*;

use crate::domain::paths::{join_text, law_within_is_component_wise, path_join, path_within, within};
use crate::domain::types::HookFileMeta;
use crate::ports::fido2_backend::Fido2Backend;
use crate::ports::filesystem_backend::FilesystemBackend;
use crate::ports::journal::{extends, lookup, Ports};
use crate::ports::luks_backend::LuksBackend;
use crate::text::{line_scan, lines_of, split_words, to_chars, words_of};

verus! {

/// One parsed `bind-hooks` line: a volume-root-relative source and a
/// `$HOME`-relative destination.
#[derive(Debug, Clone, PartialEq, Eq)]
pub struct BindHookEntry {
    pub source_relative: String,
    pub dest_relative: String,
}

/// Why a `bind-hooks` entry was skipped — never a hard failure.
#[derive(Debug, Clone, Copy, PartialEq, Eq, Structural)]
pub enum BindHookSkipReason {
    SourceMissing,
    DestMissing,
    SourceEscapesVolumeRoot,
    DestEscapesHome,
    BindMountFailed,
}

/// A non-fatal event during the hooks step of `unlock`/`close`.
#[derive(Debug, Clone, PartialEq, Eq)]
pub enum HookWarning {
    BindHookSkipped { source: String, dest: String, reason: BindHookSkipReason },
    ExecHookNonZeroExit { path: String, exit_code: Option<i32> },
    BindHooksFileUnreadable { path: String },
}

/// `warn` was told that the `bind-hooks` entry `(source, dest)` was
/// skipped for `reason`.
pub open spec fn skip_warned<W: Fn(HookWarning)>(
    warn: &W,
    source: Seq<char>,
    dest: Seq<char>,
    reason: BindHookSkipReason,
) -> bool {
    exists|w: HookWarning|
        #[trigger] call_ensures(*warn, (w,), ()) && (w matches HookWarning::BindHookSkipped {
            source: s,
            dest: d,
            reason: why,
        } && s@ == source && d@ == dest && why == reason)
}

/// `warn` was told that the `bind-hooks` file at `path` could not be read.
pub open spec fn unreadable_warned<W: Fn(HookWarning)>(warn: &W, path: Seq<char>) -> bool {
    exists|w: HookWarning|
        #[trigger] call_ensures(*warn, (w,), ()) && (w matches HookWarning::BindHooksFileUnreadable {
            path: p,
        } && p@ == path)
}

/// `warn` was told that the `exec-hooks` file at `path` exited with
/// `exit_code` (`None`: ended by a signal).
pub open spec fn exit_warned<W: Fn(HookWarning)>(warn: &W, path: Seq<char>, exit_code: Option<i32>) -> bool {
    exists|w: HookWarning|
        #[trigger] call_ensures(*warn, (w,), ()) && (w matches HookWarning::ExecHookNonZeroExit {
            path: p,
            exit_code: c,
        } && p@ == path && c == exit_code)
}

/// Why an `exec-hooks` file was refused outright. The checks run in this
/// order and the first violation is the one reported.
#[derive(Debug, Clone, Copy, PartialEq, Eq, Structural)]
pub enum HookRejectionReason {
    NotARegularFile,
    NotExecutable,
    WrongOwner,
    WorldWritable,
}

/// The `(source, dest)` text of each line of `lines` that holds exactly two
/// whitespace-separated words, in order.
pub open spec fn entries_of(lines: Seq<Seq<char>>) -> Seq<(Seq<char>, Seq<char>)>
    decreases lines.len(),
{
    if lines.len() == 0 {
        seq![]
    } else {
        let rest = entries_of(lines.drop_last());
        let w = words_of(lines.last());
        if w.len() == 2 {
            rest.push((w[0], w[1]))
        } else {
            rest
        }
    }
}

/// What a `bind-hooks` file holds: one entry per line with exactly two
/// whitespace-separated words. (A `'\r'` before a `'\n'` is whitespace, and
/// a trailing empty line has no words, so this is the same as going by
/// `str::lines`.)
pub open spec fn bind_hook_entries(content: Seq<char>) -> Seq<(Seq<char>, Seq<char>)> {
    entries_of(lines_of(content))
}

/// The `(source, dest)` text of parsed entries.
pub open spec fn entry_views(v: Seq<BindHookEntry>) -> Seq<(Seq<char>, Seq<char>)> {
    v.map_values(|e: BindHookEntry| (e.source_relative@, e.dest_relative@))
}

fn push_line_entry(entries: &mut Vec<BindHookEntry>, line: &[char])
    ensures
        entry_views(final(entries)@) == ({
            let w = words_of(line@);
            if w.len() == 2 {
                entry_views(old(entries)@).push((w[0], w[1]))
            } else {
                entry_views(old(entries)@)
            }
        }),
{
    let words = split_words(line);
    let ghost old_views = entry_views(entries@);
    if words.len() == 2 {
        let source = words[0].clone();
        let dest = words[1].clone();
        assert(words@.map_values(|w: String| w@)[0] == words@[0]@);
        assert(words@.map_values(|w: String| w@)[1] == words@[1]@);
        entries.push(BindHookEntry { source_relative: source, dest_relative: dest });
        assert(entry_views(entries@) =~= old_views.push((words_of(line@)[0], words_of(line@)[1])));
    } else {
        assert(words_of(line@).len() == words@.len());
    }
}

/// Parses a `bind-hooks` file: each line that splits on whitespace into
/// exactly two words (source, dest) is one entry; every other line, blank or
/// malformed, is dropped silently.
pub fn parse_bind_hooks(content: &str) -> (r: Vec<BindHookEntry>)
    ensures
        entry_views(r@) == bind_hook_entries(content@),
{
    let chars = to_chars(content);
    let mut entries: Vec<BindHookEntry> = Vec::new();
    let mut line: Vec<char> = Vec::new();
    let mut i: usize = 0;
    while i < chars.len()
        invariant
            i <= chars@.len(),
            chars@ == content@,
            line@ == line_scan(chars@.subrange(0, i as int)).1,
            entry_views(entries@) == entries_of(line_scan(chars@.subrange(0, i as int)).0),
        decreases chars.len() - i,
    {
        let ghost pre = chars@.subrange(0, i as int);
        assert(chars@.subrange(0, i + 1).drop_last() =~= pre);
        assert(chars@.subrange(0, i + 1).last() == chars@[i as int]);
        let c = chars[i];
        if c == '\n' {
            let ghost done = line_scan(pre).0;
            push_line_entry(&mut entries, line.as_slice());
            assert(done.push(line@).drop_last() =~= done);
            line = Vec::new();
        } else {
            line.push(c);
        }
        i = i + 1;
    }
    assert(chars@.subrange(0, i as int) =~= content@);
    let ghost done = line_scan(content@).0;
    push_line_entry(&mut entries, line.as_slice());
    assert(done.push(line@).drop_last() =~= done);
    entries
}

/// The containment rule on a resolved entry: the canonical source must lie
/// within the canonical volume root, then the canonical destination within
/// the canonical home directory.
pub open spec fn containment_of(
    source: Seq<char>,
    dest: Seq<char>,
    root: Seq<char>,
    home: Seq<char>,
) -> Result<(), BindHookSkipReason> {
    if !within(source, root) {
        Err(BindHookSkipReason::SourceEscapesVolumeRoot)
    } else if !within(dest, home) {
        Err(BindHookSkipReason::DestEscapesHome)
    } else {
        Ok(())
    }
}

/// Whether some root and home directory contain `source` and `dest`.
pub open spec fn contained_somewhere(source: Seq<char>, dest: Seq<char>) -> bool {
    exists|root: Seq<char>, home: Seq<char>| containment_of(source, dest, root, home) is Ok
}

/// Applies the containment rule to already canonicalized paths.
pub fn check_containment(source: &str, dest: &str, root: &str, home: &str) -> (r: Result<
    (),
    BindHookSkipReason,
>)
    ensures
        r == containment_of(source@, dest@, root@, home@),
{
    if !path_within(source, root) {
        Err(BindHookSkipReason::SourceEscapesVolumeRoot)
    } else if !path_within(dest, home) {
        Err(BindHookSkipReason::DestEscapesHome)
    } else {
        Ok(())
    }
}

/// `r` is what resolving the entry `(source_rel, dest_rel)` returns for
/// some answers the filesystem port gave: the first check that did not
/// pass, in the order source exists, destination exists, source, then
/// destination, then root, then home canonicalizes, containment; else the
/// canonical source and destination.
pub open spec fn resolve_outcome<S: FilesystemBackend>(
    fs: &S,
    source_rel: Seq<char>,
    dest_rel: Seq<char>,
    root: &str,
    home: &str,
    r: Result<(String, String), BindHookSkipReason>,
) -> bool {
    let source = join_text(root@, source_rel);
    let dest = join_text(home@, dest_rel);
    exists|p1: &str, source_exists: bool|
        #[trigger] call_ensures(S::path_exists, (fs, p1), source_exists) && p1@ == source && if !source_exists {
            r == Err::<(String, String), BindHookSkipReason>(BindHookSkipReason::SourceMissing)
        } else {
            exists|p2: &str, dest_exists: bool|
                #[trigger] call_ensures(S::path_exists, (fs, p2), dest_exists) && p2@ == dest && if !dest_exists {
                    r == Err::<(String, String), BindHookSkipReason>(BindHookSkipReason::DestMissing)
                } else {
                    exists|p3: &str, c1: Result<String, String>|
                        #[trigger] call_ensures(S::canonicalize, (fs, p3), c1) && p3@ == source && match c1 {
                            Err(_) => r == Err::<(String, String), BindHookSkipReason>(
                                BindHookSkipReason::SourceMissing,
                            ),
                            Ok(cs) => exists|p4: &str, c2: Result<String, String>|
                                #[trigger] call_ensures(S::canonicalize, (fs, p4), c2) && p4@ == dest
                                    && match c2 {
                                    Err(_) => r == Err::<(String, String), BindHookSkipReason>(
                                        BindHookSkipReason::DestMissing,
                                    ),
                                    Ok(cd) => resolve_roots_outcome(fs, cs, cd, root, home, r),
                                },
                        }
                }
        }
}

/// The rest of `resolve_outcome` once both ends are canonical.
pub open spec fn resolve_roots_outcome<S: FilesystemBackend>(
    fs: &S,
    cs: String,
    cd: String,
    root: &str,
    home: &str,
    r: Result<(String, String), BindHookSkipReason>,
) -> bool {
    exists|c3: Result<String, String>|
        #[trigger] call_ensures(S::canonicalize, (fs, root), c3) && match c3 {
            Err(_) => r == Err::<(String, String), BindHookSkipReason>(
                BindHookSkipReason::SourceEscapesVolumeRoot,
            ),
            Ok(cr) => exists|c4: Result<String, String>|
                #[trigger] call_ensures(S::canonicalize, (fs, home), c4) && match c4 {
                    Err(_) => r == Err::<(String, String), BindHookSkipReason>(
                        BindHookSkipReason::DestEscapesHome,
                    ),
                    Ok(ch) => match containment_of(cs@, cd@, cr@, ch@) {
                        Ok(_) => r == Ok::<(String, String), BindHookSkipReason>((cs, cd)),
                        Err(reason) => r == Err::<(String, String), BindHookSkipReason>(reason),
                    },
                },
        }
}

/// Resolves one entry to containment-checked canonical `(source, dest)`
/// paths: joins the source onto `volume_root` and the destination onto
/// `home_dir`, requires both to exist, canonicalizes all four paths (which
/// resolves `..` and symlinks), and refuses a source outside the volume root
/// or a destination outside the home directory. A failure is the first
/// check that did not pass, never `BindMountFailed`.
pub fn resolve_bind_hook_entry<L: LuksBackend, F: Fido2Backend, S: FilesystemBackend>(
    entry: &BindHookEntry,
    volume_root: &str,
    home_dir: &str,
    ports: &mut Ports<'_, L, F, S>,
) -> (r: Result<(String, String), BindHookSkipReason>)
    ensures
        final(ports).keeps(*old(ports)),
        extends(old(ports).log(), final(ports).log()),
        r matches Err(reason) ==> reason != BindHookSkipReason::BindMountFailed,
        r is Ok ==> contained_somewhere(r->Ok_0.0@, r->Ok_0.1@),
        resolve_outcome(old(ports).fs(), entry.source_relative@, entry.dest_relative@, volume_root, home_dir, r),
        forall|i: int|
            old(ports).log().len() <= i < final(ports).log().len() ==> #[trigger] lookup()(
                final(ports).log()[i],
            ),
{
    let source = path_join(volume_root, entry.source_relative.as_str());
    let dest = path_join(home_dir, entry.dest_relative.as_str());
    let source_path: &str = source.as_str();
    let dest_path: &str = dest.as_str();
    if !ports.path_exists(source_path) {
        return Err(BindHookSkipReason::SourceMissing);
    }
    if !ports.path_exists(dest_path) {
        return Err(BindHookSkipReason::DestMissing);
    }
    let canonical_source = match ports.canonicalize(source_path) {
        Ok(p) => p,
        Err(_) => return Err(BindHookSkipReason::SourceMissing),
    };
    let canonical_dest = match ports.canonicalize(dest_path) {
        Ok(p) => p,
        Err(_) => return Err(BindHookSkipReason::DestMissing),
    };
    let canonical_root = match ports.canonicalize(volume_root) {
        Ok(p) => p,
        Err(_) => return Err(BindHookSkipReason::SourceEscapesVolumeRoot),
    };
    let canonical_home = match ports.canonicalize(home_dir) {
        Ok(p) => p,
        Err(_) => return Err(BindHookSkipReason::DestEscapesHome),
    };
    match check_containment(
        canonical_source.as_str(),
        canonical_dest.as_str(),
        canonical_root.as_str(),
        canonical_home.as_str(),
    ) {
        Ok(()) => {
            assert(containment_of(
                canonical_source@,
                canonical_dest@,
                canonical_root@,
                canonical_home@,
            ) is Ok);
            assert(contained_somewhere(canonical_source@, canonical_dest@));
            Ok((canonical_source, canonical_dest))
        },
        Err(reason) => Err(reason),
    }
}

/// The guardrail on an `exec-hooks` file: the first violated rule, in the
/// order regular-file (and not a symlink), executable, owned by the invoking
/// user or root, not world-writable.
pub open spec fn rejection_of(meta: HookFileMeta) -> Option<HookRejectionReason> {
    if meta.is_symlink || !meta.is_regular_file {
        Some(HookRejectionReason::NotARegularFile)
    } else if !meta.is_executable {
        Some(HookRejectionReason::NotExecutable)
    } else if !meta.owned_by_invoking_user_or_root {
        Some(HookRejectionReason::WrongOwner)
    } else if meta.is_world_writable {
        Some(HookRejectionReason::WorldWritable)
    } else {
        None
    }
}

/// Checks `meta` against the `exec-hooks` guardrail, returning the first
/// violation found.
pub fn exec_hook_rejection(meta: &HookFileMeta) -> (r: Option<HookRejectionReason>)
    ensures
        r == rejection_of(*meta),
{
    if meta.is_symlink || !meta.is_regular_file {
        Some(HookRejectionReason::NotARegularFile)
    } else if !meta.is_executable {
        Some(HookRejectionReason::NotExecutable)
    } else if !meta.owned_by_invoking_user_or_root {
        Some(HookRejectionReason::WrongOwner)
    } else if meta.is_world_writable {
        Some(HookRejectionReason::WorldWritable)
    } else {
        None
    }
}

/// A bind-hooks entry is applied only when its source lies inside the tomb
/// and its destination inside the home directory: one under each (by whole
/// path components) is accepted, and a source in a sibling directory that
/// merely shares the tomb's name as a prefix is refused as escaping it.
pub proof fn law_bind_entries_stay_inside(
    root: Seq<char>,
    home: Seq<char>,
    source_rest: Seq<char>,
    dest_rest: Seq<char>,
    c: char,
)
    requires
        root.len() > 0,
        root.last() != '/',
        home.len() > 0,
        home.last() != '/',
        c != '/',
    ensures
        containment_of(root + "/"@ + source_rest, home + "/"@ + dest_rest, root, home) is Ok,
        containment_of(root + seq![c] + source_rest, home + "/"@ + dest_rest, root, home) == Err::<
            (),
            BindHookSkipReason,
        >(BindHookSkipReason::SourceEscapesVolumeRoot),
        containment_of(root + "/"@ + source_rest, home + seq![c] + dest_rest, root, home) == Err::<
            (),
            BindHookSkipReason,
        >(BindHookSkipReason::DestEscapesHome),
{
    law_within_is_component_wise(root, source_rest, c);
    law_within_is_component_wise(home, dest_rest, c);
}

/// An `exec-hooks` file passes the guardrail exactly when it is a regular,
/// non-symlinked, executable file owned by the invoking user or root that
/// is not world-writable; otherwise the reported reason is the first rule,
/// in guardrail order, that it breaks.
pub proof fn law_exec_hook_guardrail(meta: HookFileMeta)
    ensures
        (rejection_of(meta) is None) <==> (meta.is_regular_file && !meta.is_symlink
            && meta.is_executable && meta.owned_by_invoking_user_or_root
            && !meta.is_world_writable),
        (meta.is_symlink || !meta.is_regular_file) ==> rejection_of(meta) == Some(
            HookRejectionReason::NotARegularFile,
        ),
        rejection_of(meta) == Some(HookRejectionReason::WorldWritable) ==> (meta.is_regular_file
            && !meta.is_symlink && meta.is_executable && meta.owned_by_invoking_user_or_root),
{
}

} // verus!
