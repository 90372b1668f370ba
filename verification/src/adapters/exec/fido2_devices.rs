//! Which FIDO2 devices are plugged in, as `fido2-token -L` lists them, and
//! how an explicit device selection is checked against that listing.
use vstd::prelude::*;

use crate::domain::errors::DomainError;
use crate::text::{concat, from_chars, line_scan, lines_of, text_eq, to_chars, trim, trim_chars};

verus! {

/// One FIDO2 security key from one `fido2-token -L` listing: its hidraw
/// path and the description printed beside it.
#[derive(Debug, Clone, PartialEq, Eq)]
pub struct Fido2Device {
    pub path: String,
    pub description: String,
}

/// Index of the first `c` in `s`, or -1.
pub open spec fn first_index_of(s: Seq<char>, c: char) -> int
    decreases s.len(),
{
    if s.len() == 0 {
        -1
    } else if s[0] == c {
        0
    } else {
        let r = first_index_of(s.drop_first(), c);
        if r < 0 {
            -1
        } else {
            r + 1
        }
    }
}

/// The device a listing line describes: the text before its first `:` is
/// the path and the rest the description, both trimmed; no device for a
/// line without `:` or with an empty path.
pub open spec fn device_of_line(line: Seq<char>) -> Option<(Seq<char>, Seq<char>)> {
    let k = first_index_of(line, ':');
    if k < 0 {
        None
    } else {
        let path = trim(line.subrange(0, k));
        if path.len() == 0 {
            None
        } else {
            Some((path, trim(line.subrange(k + 1, line.len() as int))))
        }
    }
}

/// The devices of `lines`, in order.
pub open spec fn devices_of(lines: Seq<Seq<char>>) -> Seq<(Seq<char>, Seq<char>)>
    decreases lines.len(),
{
    if lines.len() == 0 {
        seq![]
    } else {
        let rest = devices_of(lines.drop_last());
        match device_of_line(lines.last()) {
            Some(d) => rest.push(d),
            None => rest,
        }
    }
}

/// The `(path, description)` text of devices.
pub open spec fn device_views(v: Seq<Fido2Device>) -> Seq<(Seq<char>, Seq<char>)> {
    v.map_values(|d: Fido2Device| (d.path@, d.description@))
}

proof fn lemma_first_index_bounds(s: Seq<char>, c: char)
    ensures
        -1 <= first_index_of(s, c) < s.len(),
        first_index_of(s, c) >= 0 ==> s[first_index_of(s, c)] == c,
        forall|k: int| 0 <= k < s.len() && (first_index_of(s, c) < 0 || k < first_index_of(s, c))
            ==> s[k] != c,
    decreases s.len(),
{
    if s.len() > 0 && s[0] != c {
        let t = s.drop_first();
        lemma_first_index_bounds(t, c);
        assert forall|k: int| 0 <= k < s.len() && (first_index_of(s, c) < 0 || k < first_index_of(s, c))
            implies s[k] != c by {
            if k > 0 {
                assert(s[k] == t[k - 1]);
            }
        }
    }
}

proof fn lemma_first_index_is(s: Seq<char>, c: char, k: int)
    requires
        0 <= k < s.len(),
        s[k] == c,
        forall|j: int| 0 <= j < k ==> s[j] != c,
    ensures
        first_index_of(s, c) == k,
    decreases s.len(),
{
    if k > 0 {
        let t = s.drop_first();
        assert forall|j: int| 0 <= j < k - 1 implies t[j] != c by {
            assert(t[j] == s[j + 1]);
        }
        lemma_first_index_is(t, c, k - 1);
    }
}

fn push_line_device(devices: &mut Vec<Fido2Device>, line: &[char])
    ensures
        device_views(final(devices)@) == (match device_of_line(line@) {
            Some(d) => device_views(old(devices)@).push(d),
            None => device_views(old(devices)@),
        }),
{
    let ghost before = device_views(devices@);
    let mut k: usize = 0;
    while k < line.len() && line[k] != ':'
        invariant
            k <= line@.len(),
            forall|j: int| 0 <= j < k ==> line@[j] != ':',
        decreases line.len() - k,
    {
        k = k + 1;
    }
    proof {
        lemma_first_index_bounds(line@, ':');
    }
    if k == line.len() {
        assert(first_index_of(line@, ':') < 0);
        return;
    }
    proof {
        lemma_first_index_is(line@, ':', k as int);
    }
    let head = from_chars(line, 0, k);
    let head_chars = to_chars(head.as_str());
    let path_chars = trim_chars(head_chars.as_slice());
    if path_chars.len() == 0 {
        return;
    }
    let tail = from_chars(line, k + 1, line.len());
    let tail_chars = to_chars(tail.as_str());
    let description_chars = trim_chars(tail_chars.as_slice());
    let path = from_chars(path_chars.as_slice(), 0, path_chars.len());
    let description = from_chars(description_chars.as_slice(), 0, description_chars.len());
    assert(path_chars@.subrange(0, path_chars@.len() as int) =~= path_chars@);
    assert(description_chars@.subrange(0, description_chars@.len() as int)
        =~= description_chars@);
    devices.push(Fido2Device { path, description });
    assert(device_views(devices@) =~= before.push(device_of_line(line@)->Some_0));
}

/// The devices of a `fido2-token -L` listing, in listed order.
pub fn parse_device_list(output: &str) -> (r: Vec<Fido2Device>)
    ensures
        device_views(r@) == devices_of(lines_of(output@)),
{
    let chars = to_chars(output);
    let mut devices: Vec<Fido2Device> = Vec::new();
    let mut line: Vec<char> = Vec::new();
    let mut i: usize = 0;
    while i < chars.len()
        invariant
            i <= chars@.len(),
            chars@ == output@,
            line@ == line_scan(chars@.subrange(0, i as int)).1,
            device_views(devices@) == devices_of(line_scan(chars@.subrange(0, i as int)).0),
        decreases chars.len() - i,
    {
        let ghost pre = chars@.subrange(0, i as int);
        assert(chars@.subrange(0, i + 1).drop_last() =~= pre);
        assert(chars@.subrange(0, i + 1).last() == chars@[i as int]);
        let c = chars[i];
        if c == '\n' {
            let ghost done = line_scan(pre).0;
            push_line_device(&mut devices, line.as_slice());
            assert(done.push(line@).drop_last() =~= done);
            line = Vec::new();
        } else {
            line.push(c);
        }
        i = i + 1;
    }
    assert(chars@.subrange(0, i as int) =~= output@);
    let ghost done = line_scan(output@).0;
    push_line_device(&mut devices, line.as_slice());
    assert(done.push(line@).drop_last() =~= done);
    devices
}

/// Whether some device of the listing has exactly this path.
pub open spec fn enumerated(devices: Seq<Fido2Device>, path: Seq<char>) -> bool {
    exists|i: int| 0 <= i < devices.len() && (#[trigger] devices[i]).path@ == path
}

/// The refusal of a device that is not in the listing.
pub open spec fn not_enumerated_message(role: Seq<char>, path: Seq<char>) -> Seq<char> {
    "the specified "@ + role + " FIDO2 device "@ + path
        + " is not currently enumerated by fido2-token -L"@
}

/// Checks that `path` is one of the listed devices (`role` only shapes the
/// message), returning it.
pub fn validate_device_enumerated(devices: &[Fido2Device], path: &str, role: &str) -> (r: Result<
    String,
    DomainError,
>)
    ensures
        enumerated(devices@, path@) ==> (r matches Ok(p) && p@ == path@),
        !enumerated(devices@, path@) ==> (r matches Err(DomainError::AdapterFailure(m)) && m@
            == not_enumerated_message(role@, path@)),
{
    let mut i: usize = 0;
    while i < devices.len()
        invariant
            i <= devices@.len(),
            forall|j: int| 0 <= j < i ==> (#[trigger] devices@[j]).path@ != path@,
        decreases devices.len() - i,
    {
        if text_eq(devices[i].path.as_str(), path) {
            return Ok(String::from_str(path));
        }
        i = i + 1;
    }
    let mut m = concat("the specified ", role);
    m.append(" FIDO2 device ");
    m.append(path);
    m.append(" is not currently enumerated by fido2-token -L");
    Err(DomainError::AdapterFailure(m))
}

/// Resolves an explicit device selection against one listing: the
/// existing-key device is required when `need_existing`; both devices must
/// be listed (the new one checked first); and they must differ.
pub fn resolve_explicit_selection(
    devices: &[Fido2Device],
    new: &str,
    existing: Option<&str>,
    need_existing: bool,
) -> (r: Result<(String, Option<String>), DomainError>)
    ensures
        need_existing && existing is None ==> (r matches Err(DomainError::AdapterFailure(m)) && m@
            == "enrolling against an already-enrolled key requires an explicit --unlock-fido2-device path"@),
        !(need_existing && existing is None) && !enumerated(devices@, new@) ==> (r matches Err(
            DomainError::AdapterFailure(m),
        ) && m@ == not_enumerated_message("new"@, new@)),
        !(need_existing && existing is None) && enumerated(devices@, new@) && (existing matches Some(
            e,
        ) && !enumerated(devices@, e@)) ==> (r matches Err(DomainError::AdapterFailure(m)) && m@
            == not_enumerated_message("existing"@, existing->Some_0@)),
        !(need_existing && existing is None) && enumerated(devices@, new@) && (existing matches Some(
            e,
        ) && enumerated(devices@, e@) && e@ == new@) ==> (r matches Err(
            DomainError::AdapterFailure(m),
        ) && m@ == "--fido2-device and --unlock-fido2-device must refer to different devices"@),
        r is Ok <==> !(need_existing && existing is None) && enumerated(devices@, new@) && (
        existing matches Some(e) ==> enumerated(devices@, e@) && e@ != new@),
        r matches Ok((n, e)) ==> n@ == new@ && (e is None <==> existing is None) && (e matches Some(
            x,
        ) ==> x@ == existing->Some_0@),
{
    if need_existing && existing.is_none() {
        return Err(
            DomainError::AdapterFailure(
                String::from_str(
                    "enrolling against an already-enrolled key requires an explicit --unlock-fido2-device path",
                ),
            ),
        );
    }
    let new_path = validate_device_enumerated(devices, new, "new")?;
    let existing_path = match existing {
        Some(e) => Some(validate_device_enumerated(devices, e, "existing")?),
        None => None,
    };
    if let Some(e) = &existing_path {
        if text_eq(e.as_str(), new_path.as_str()) {
            return Err(
                DomainError::AdapterFailure(
                    String::from_str(
                        "--fido2-device and --unlock-fido2-device must refer to different devices",
                    ),
                ),
            );
        }
    }
    Ok((new_path, existing_path))
}

} // verus!
