//! Reading the plain-text output of the system tools this tool runs.
use vstd::prelude::*;

use crate::adapters::exec::luks_header::{parse_u32, parsed_u32};
use crate::domain::mapping_name::MAPPING_NAME_PREFIX;
use crate::domain::types::Pid;
use crate::text::{
    concat, from_chars, lines_of, split_lines, split_words, starts_with, to_chars, trim, trim_chars,
    words_of,
};

verus! {

/// The rest of the first line of `lines` that begins with `prefix`,
/// trimmed.
pub open spec fn field_in(lines: Seq<Seq<char>>, prefix: Seq<char>) -> Option<Seq<char>>
    decreases lines.len(),
{
    if lines.len() == 0 {
        None
    } else if starts_with(lines[0], prefix) {
        Some(trim(lines[0].subrange(prefix.len() as int, lines[0].len() as int)))
    } else {
        field_in(lines.drop_first(), prefix)
    }
}

fn starts_with_exec(line: &[char], prefix: &[char]) -> (r: bool)
    ensures
        r == starts_with(line@, prefix@),
{
    if prefix.len() > line.len() {
        return false;
    }
    let mut i: usize = 0;
    while i < prefix.len()
        invariant
            prefix@.len() <= line@.len(),
            i <= prefix@.len(),
            forall|k: int| 0 <= k < i ==> line@[k] == prefix@[k],
        decreases prefix.len() - i,
    {
        if line[i] != prefix[i] {
            assert(line@.subrange(0, prefix@.len() as int)[i as int] != prefix@[i as int]);
            return false;
        }
        i = i + 1;
    }
    assert(line@.subrange(0, prefix@.len() as int) =~= prefix@);
    true
}

/// The value of the first `prefix`-led line of `text`, as `dumpe2fs -h`,
/// `cryptsetup --help` and `cryptsetup status` print their fields.
pub fn field_after(text: &str, prefix: &str) -> (r: Option<String>)
    ensures
        match r {
            None => field_in(lines_of(text@), prefix@) is None,
            Some(v) => field_in(lines_of(text@), prefix@) == Some(v@),
        },
{
    let lines = split_lines(text);
    let p = to_chars(prefix);
    let ghost all = lines@.map_values(|l: String| l@);
    assert(all.subrange(0, all.len() as int) =~= all);
    let mut i: usize = 0;
    while i < lines.len()
        invariant
            i <= lines@.len(),
            all == lines@.map_values(|l: String| l@),
            all == lines_of(text@),
            p@ == prefix@,
            field_in(all, prefix@) == field_in(all.subrange(i as int, all.len() as int), prefix@),
        decreases lines.len() - i,
    {
        let ghost rest = all.subrange(i as int, all.len() as int);
        assert(rest[0] == lines@[i as int]@);
        let line = to_chars(lines[i].as_str());
        if starts_with_exec(line.as_slice(), p.as_slice()) {
            let tail = from_chars(line.as_slice(), p.len(), line.len());
            let tail_chars = to_chars(tail.as_str());
            let value = trim_chars(tail_chars.as_slice());
            let found = from_chars(value.as_slice(), 0, value.len());
            assert(value@.subrange(0, value@.len() as int) =~= value@);
            assert(starts_with(rest[0], prefix@));
            assert(field_in(rest, prefix@) == Some(found@));
            assert(all == lines_of(text@));
            return Some(found);
        }
        assert(rest.drop_first() =~= all.subrange(i + 1, all.len() as int));
        i = i + 1;
    }
    None
}

/// The first line of `text`, trimmed.
pub fn first_line_trimmed(text: &str) -> (r: String)
    ensures
        r@ == trim(lines_of(text@)[0]),
{
    let lines = split_lines(text);
    assert(lines_of(text@).len() > 0);
    assert(lines@.map_values(|l: String| l@).len() == lines@.len());
    assert(lines@.map_values(|l: String| l@)[0] == lines@[0]@);
    let first = to_chars(lines[0].as_str());
    let t = trim_chars(first.as_slice());
    assert(t@.subrange(0, t@.len() as int) =~= t@);
    from_chars(t.as_slice(), 0, t.len())
}

/// The process ids among the whitespace-separated words of `text`, in
/// order (`fuser` prints them so; any other word is passed over).
pub open spec fn pids_of(words: Seq<Seq<char>>) -> Seq<u32>
    decreases words.len(),
{
    if words.len() == 0 {
        seq![]
    } else {
        let before = pids_of(words.drop_last());
        match parsed_u32(words.last()) {
            Some(n) => before.push(n),
            None => before,
        }
    }
}

pub fn pids_in(text: &str) -> (r: Vec<Pid>)
    ensures
        r@.map_values(|p: Pid| p.0) == pids_of(words_of(text@)),
{
    let chars = to_chars(text);
    let words = split_words(chars.as_slice());
    let ghost all = words@.map_values(|w: String| w@);
    let mut pids: Vec<Pid> = Vec::new();
    let mut i: usize = 0;
    while i < words.len()
        invariant
            i <= words@.len(),
            all == words@.map_values(|w: String| w@),
            pids@.map_values(|p: Pid| p.0) == pids_of(all.subrange(0, i as int)),
        decreases words.len() - i,
    {
        let ghost pre = all.subrange(0, i as int);
        assert(all.subrange(0, i + 1).drop_last() =~= pre);
        assert(all.subrange(0, i + 1).last() == words@[i as int]@);
        if let Some(n) = parse_u32(words[i].as_str()) {
            let ghost before = pids@.map_values(|p: Pid| p.0);
            pids.push(Pid(n));
            assert(pids@.map_values(|p: Pid| p.0) =~= before.push(n));
        }
        i = i + 1;
    }
    assert(all.subrange(0, i as int) =~= all);
    pids
}

/// The mapping names among the lines of a `dmsetup ls --target crypt`
/// listing that carry `prefix`: the first word of each line that starts
/// with it, in order (a "No devices found" listing has none).
pub open spec fn listed_mappings(lines: Seq<Seq<char>>, prefix: Seq<char>) -> Seq<Seq<char>>
    decreases lines.len(),
{
    if lines.len() == 0 {
        seq![]
    } else {
        let before = listed_mappings(lines.drop_last(), prefix);
        let w = words_of(lines.last());
        if w.len() > 0 && starts_with(w[0], prefix) {
            before.push(w[0])
        } else {
            before
        }
    }
}

/// This tool's crypt mappings (named `vault-…`) in a `dmsetup ls --target
/// crypt` listing, in order.
pub fn mapping_names_in(listing: &str) -> (r: Vec<String>)
    ensures
        r@.map_values(|n: String| n@) == listed_mappings(
            lines_of(listing@),
            MAPPING_NAME_PREFIX@ + "-"@,
        ),
{
    let prefix_text = concat(MAPPING_NAME_PREFIX, "-");
    let prefix = to_chars(prefix_text.as_str());
    let lines = split_lines(listing);
    let ghost all = lines@.map_values(|l: String| l@);
    let mut names: Vec<String> = Vec::new();
    let mut i: usize = 0;
    while i < lines.len()
        invariant
            i <= lines@.len(),
            all == lines@.map_values(|l: String| l@),
            prefix@ == MAPPING_NAME_PREFIX@ + "-"@,
            names@.map_values(|n: String| n@) == listed_mappings(all.subrange(0, i as int), prefix@),
        decreases lines.len() - i,
    {
        let ghost pre = all.subrange(0, i as int);
        assert(all.subrange(0, i + 1).drop_last() =~= pre);
        assert(all.subrange(0, i + 1).last() == lines@[i as int]@);
        let chars = to_chars(lines[i].as_str());
        let words = split_words(chars.as_slice());
        if words.len() > 0 {
            assert(words@.map_values(|w: String| w@)[0] == words@[0]@);
            let first = to_chars(words[0].as_str());
            if starts_with_exec(first.as_slice(), prefix.as_slice()) {
                let ghost before = names@.map_values(|n: String| n@);
                names.push(words[0].clone());
                assert(names@.map_values(|n: String| n@) =~= before.push(words@[0]@));
            }
        }
        i = i + 1;
    }
    assert(all.subrange(0, i as int) =~= all);
    names
}

/// The backing device a `cryptsetup status` report names: its `loop:` line
/// (a file-backed mapping's backing file), else its `device:` line; both
/// fields are indented by two spaces.
pub fn status_backing_source(status: &str) -> (r: Option<String>)
    ensures
        match field_in(lines_of(status@), "  loop:"@) {
            Some(v) => r matches Some(s) && s@ == v,
            None => match field_in(lines_of(status@), "  device:"@) {
                Some(v) => r matches Some(s) && s@ == v,
                None => r is None,
            },
        },
{
    match field_after(status, "  loop:") {
        Some(v) => Some(v),
        None => field_after(status, "  device:"),
    }
}

} // verus!
