//! Path text handling for the hooks step: joining a relative entry onto a
//! root, containment of canonical paths, and a volume's display name.
use vstd::prelude::*;

use crate::text::{from_chars, to_chars};

verus! {

/// `Path::join`: an absolute `rel` replaces `base`; otherwise `rel` is
/// appended, with a `/` between them unless `base` is empty or already ends
/// in one.
pub open spec fn join_text(base: Seq<char>, rel: Seq<char>) -> Seq<char> {
    if rel.len() > 0 && rel[0] == '/' {
        rel
    } else if base.len() == 0 {
        rel
    } else if base.last() == '/' {
        base + rel
    } else {
        base + "/"@ + rel
    }
}

pub fn path_join(base: &str, rel: &str) -> (r: String)
    ensures
        r@ == join_text(base@, rel@),
{
    let rel_chars = to_chars(rel);
    let base_chars = to_chars(base);
    if rel_chars.len() > 0 && rel_chars[0] == '/' {
        String::from_str(rel)
    } else if base_chars.len() == 0 {
        String::from_str(rel)
    } else if base_chars[base_chars.len() - 1] == '/' {
        let mut r = String::from_str(base);
        r.append(rel);
        r
    } else {
        let mut r = String::from_str(base);
        r.append("/");
        r.append(rel);
        r
    }
}

/// Whether `p` begins with `prefix`.
pub open spec fn has_prefix(p: Seq<char>, prefix: Seq<char>) -> bool {
    prefix.len() <= p.len() && p.subrange(0, prefix.len() as int) == prefix
}

/// Component-wise containment of canonical paths (`Path::starts_with` on
/// normalized absolute paths): `p` is `root` itself or lies under it.
pub open spec fn within(p: Seq<char>, root: Seq<char>) -> bool {
    ||| p == root
    ||| (root.len() > 0 && root.last() == '/' && has_prefix(p, root))
    ||| has_prefix(p, root + "/"@)
}

/// Containment goes by whole path components: a directory contains itself
/// and everything below it, but not a sibling whose name merely starts
/// with the same characters (`/home/user2` is not inside `/home/user`).
pub proof fn law_within_is_component_wise(root: Seq<char>, rest: Seq<char>, c: char)
    requires
        root.len() > 0,
        root.last() != '/',
        c != '/',
    ensures
        within(root, root),
        within(root + "/"@ + rest, root),
        !within(root + seq![c] + rest, root),
{
    reveal_strlit("/");
    let inside = root + "/"@ + rest;
    assert(inside.subrange(0, (root + "/"@).len() as int) =~= root + "/"@);
    let sibling = root + seq![c] + rest;
    assert(sibling.len() > root.len());
    if has_prefix(sibling, root + "/"@) {
        assert(sibling.subrange(0, root.len() + 1int)[root.len() as int] == (root + "/"@)[root.len() as int]);
        assert(sibling[root.len() as int] == c);
    }
}

fn prefix_chars(p: &[char], prefix: &[char]) -> (r: bool)
    ensures
        r == has_prefix(p@, prefix@),
{
    if prefix.len() > p.len() {
        return false;
    }
    let mut i: usize = 0;
    while i < prefix.len()
        invariant
            prefix@.len() <= p@.len(),
            i <= prefix@.len(),
            forall|k: int| 0 <= k < i ==> p@[k] == prefix@[k],
        decreases prefix.len() - i,
    {
        if p[i] != prefix[i] {
            assert(p@.subrange(0, prefix@.len() as int)[i as int] != prefix@[i as int]);
            return false;
        }
        i = i + 1;
    }
    assert(p@.subrange(0, prefix@.len() as int) =~= prefix@);
    true
}

/// Whether the canonical path `p` is `root` or lies under it.
pub fn path_within(p: &str, root: &str) -> (r: bool)
    ensures
        r == within(p@, root@),
{
    let pc = to_chars(p);
    let rc = to_chars(root);
    let mut with_sep = to_chars(root);
    with_sep.push('/');
    assert(with_sep@ =~= rc@ + "/"@) by {
        reveal_strlit("/");
    }
    let same = if pc.len() == rc.len() {
        prefix_chars(pc.as_slice(), rc.as_slice())
    } else {
        false
    };
    assert(same == (p@ == root@)) by {
        if pc.len() == rc.len() {
            assert(pc@.subrange(0, rc@.len() as int) =~= pc@);
        }
    }
    let slash_root = rc.len() > 0 && rc[rc.len() - 1] == '/' && prefix_chars(
        pc.as_slice(),
        rc.as_slice(),
    );
    same || slash_root || prefix_chars(pc.as_slice(), with_sep.as_slice())
}

/// Index of the last `c` in `s`, or -1.
pub open spec fn last_index_of(s: Seq<char>, c: char) -> int
    decreases s.len(),
{
    if s.len() == 0 {
        -1
    } else if s.last() == c {
        s.len() - 1
    } else {
        last_index_of(s.drop_last(), c)
    }
}

/// The text after the last `/` of `s` (all of `s` when it has none).
pub open spec fn last_segment(s: Seq<char>) -> Seq<char> {
    s.subrange(last_index_of(s, '/') + 1, s.len() as int)
}

/// `Path::file_name`: the last normal component, ignoring trailing `/` and
/// `.` components; none for a path ending in `..` or with no component.
pub open spec fn file_name(p: Seq<char>) -> Option<Seq<char>>
    decreases p.len(),
{
    if p.len() == 0 {
        None
    } else if p.last() == '/' {
        file_name(p.drop_last())
    } else if last_segment(p) == "."@ {
        file_name(p.drop_last())
    } else if last_segment(p) == ".."@ {
        None
    } else {
        Some(last_segment(p))
    }
}

/// `Path::file_stem` applied to a file name: the name up to its last `.`,
/// unless that dot is its first character.
pub open spec fn stem_of(name: Seq<char>) -> Seq<char> {
    let d = last_index_of(name, '.');
    if d <= 0 {
        name
    } else {
        name.subrange(0, d)
    }
}

/// The name a volume is known by: the stem of its path's file name, or the
/// whole path when it has none.
pub open spec fn volume_name_text(p: Seq<char>) -> Seq<char> {
    match file_name(p) {
        Some(name) => stem_of(name),
        None => p,
    }
}

proof fn lemma_last_index_bounds(s: Seq<char>, c: char)
    ensures
        -1 <= last_index_of(s, c) < s.len(),
        last_index_of(s, c) >= 0 ==> s[last_index_of(s, c)] == c,
        forall|k: int| last_index_of(s, c) < k < s.len() ==> s[k] != c,
    decreases s.len(),
{
    if s.len() > 0 && s.last() != c {
        let t = s.drop_last();
        lemma_last_index_bounds(t, c);
        assert forall|k: int| last_index_of(s, c) < k < s.len() implies s[k] != c by {
            if k < t.len() {
                assert(s[k] == t[k]);
            }
        }
    }
}

/// The last `c` within `v[from..end]`, as an index into `v`.
fn last_index_in(v: &[char], from: usize, end: usize, c: char) -> (r: Option<usize>)
    requires
        from <= end <= v@.len(),
    ensures
        match r {
            None => last_index_of(v@.subrange(from as int, end as int), c) == -1,
            Some(k) => from <= k < end && last_index_of(v@.subrange(from as int, end as int), c)
                == k - from,
        },
    decreases end,
{
    if end == from {
        None
    } else if v[end - 1] == c {
        Some(end - 1)
    } else {
        assert(v@.subrange(from as int, end as int).drop_last() =~= v@.subrange(
            from as int,
            end - 1,
        ));
        last_index_in(v, from, end - 1, c)
    }
}

proof fn lemma_segment_dot(v: Seq<char>, end: int, li: int)
    requires
        0 < end <= v.len(),
        li == last_index_of(v.subrange(0, end), '/'),
    ensures
        last_segment(v.subrange(0, end)) == v.subrange(li + 1, end),
{
    lemma_last_index_bounds(v.subrange(0, end), '/');
    assert(v.subrange(0, end).subrange(li + 1, end) =~= v.subrange(li + 1, end));
}

/// The range `[start, stop)` of `file_name(v[..end])` within `v`.
fn file_name_range(v: &[char], end: usize) -> (r: Option<(usize, usize)>)
    requires
        end <= v@.len(),
    ensures
        match r {
            None => file_name(v@.subrange(0, end as int)) is None,
            Some((a, b)) => a <= b <= end && file_name(v@.subrange(0, end as int)) == Some(
                v@.subrange(a as int, b as int),
            ),
        },
    decreases end,
{
    let ghost p = v@.subrange(0, end as int);
    if end == 0 {
        return None;
    }
    assert(p.drop_last() =~= v@.subrange(0, end - 1));
    if v[end - 1] == '/' {
        return file_name_range(v, end - 1);
    }
    let li = last_index_in(v, 0, end, '/');
    let start = match li {
        None => 0,
        Some(k) => k + 1,
    };
    proof {
        lemma_last_index_bounds(p, '/');
        lemma_segment_dot(v@, end as int, start - 1);
    }
    let seg_len = end - start;
    if seg_len == 1 && v[start] == '.' {
        assert(last_segment(p) =~= "."@) by {
            reveal_strlit(".");
        }
        return file_name_range(v, end - 1);
    }
    assert(last_segment(p) != "."@) by {
        reveal_strlit(".");
        let seg = v@.subrange(start as int, end as int);
        assert(seg.len() == seg_len);
        if seg == "."@ {
            assert(seg[0] == v@[start as int]);
            assert(seg_len == 1 && v@[start as int] == '.');
        }
    }
    if seg_len == 2 && v[start] == '.' && v[start + 1] == '.' {
        assert(last_segment(p) =~= ".."@) by {
            reveal_strlit("..");
        }
        return None;
    }
    assert(last_segment(p) != ".."@) by {
        reveal_strlit("..");
        let seg = v@.subrange(start as int, end as int);
        assert(seg.len() == seg_len);
        if seg == ".."@ {
            assert(seg[0] == v@[start as int]);
            assert(seg[1] == v@[start + 1]);
            assert(seg_len == 2 && v@[start as int] == '.' && v@[start + 1] == '.');
        }
    }
    Some((start, end))
}

/// `s` without its trailing `/` characters.
pub open spec fn strip_trailing_slashes(s: Seq<char>) -> Seq<char>
    decreases s.len(),
{
    if s.len() > 0 && s.last() == '/' {
        strip_trailing_slashes(s.drop_last())
    } else {
        s
    }
}

/// `Path::parent`: none for an empty path or the root; otherwise the text
/// before the last normal component (ignoring trailing `/` and `.`
/// components), without its trailing slashes — `/` when only the root is
/// left, and empty for a bare relative name.
pub open spec fn parent_text(p: Seq<char>) -> Option<Seq<char>>
    decreases p.len(),
{
    if p.len() == 0 {
        None
    } else if p.last() == '/' {
        if p.len() == 1 {
            None
        } else {
            parent_text(p.drop_last())
        }
    } else if p.len() > 1 && last_segment(p) == "."@ {
        parent_text(p.drop_last())
    } else {
        let li = last_index_of(p, '/');
        if li < 0 {
            Some(seq![])
        } else {
            let head = strip_trailing_slashes(p.subrange(0, li + 1));
            if head.len() == 0 {
                Some("/"@)
            } else {
                Some(head)
            }
        }
    }
}

/// The end `k` of the parent `v[..k]` of `v[..end]`.
fn parent_end(v: &[char], end: usize) -> (r: Option<usize>)
    requires
        end <= v@.len(),
    ensures
        match r {
            None => parent_text(v@.subrange(0, end as int)) is None,
            Some(k) => k <= end && parent_text(v@.subrange(0, end as int)) == Some(
                v@.subrange(0, k as int),
            ),
        },
    decreases end,
{
    let ghost p = v@.subrange(0, end as int);
    if end == 0 {
        return None;
    }
    assert(p.drop_last() =~= v@.subrange(0, end - 1));
    if v[end - 1] == '/' {
        if end == 1 {
            return None;
        }
        return parent_end(v, end - 1);
    }
    let li = last_index_in(v, 0, end, '/');
    let start = match li {
        None => 0,
        Some(k) => k + 1,
    };
    proof {
        lemma_last_index_bounds(p, '/');
        lemma_segment_dot(v@, end as int, start - 1);
    }
    let seg_len = end - start;
    if end > 1 && seg_len == 1 && v[start] == '.' {
        assert(last_segment(p) =~= "."@) by {
            reveal_strlit(".");
        }
        return parent_end(v, end - 1);
    }
    assert(!(p.len() > 1 && last_segment(p) == "."@)) by {
        reveal_strlit(".");
        let seg = v@.subrange(start as int, end as int);
        assert(seg.len() == seg_len);
        if seg == "."@ {
            assert(seg[0] == v@[start as int]);
        }
    }
    match li {
        None => {
            assert(v@.subrange(0, 0) =~= Seq::<char>::empty());
            Some(0)
        },
        Some(k) => {
            let mut j: usize = k + 1;
            while j > 0 && v[j - 1] == '/'
                invariant
                    0 <= j <= k + 1,
                    k < end <= v@.len(),
                    v@[k as int] == '/',
                    j < k + 1 ==> v@[j as int] == '/',
                    strip_trailing_slashes(v@.subrange(0, k + 1)) == strip_trailing_slashes(
                        v@.subrange(0, j as int),
                    ),
                decreases j,
            {
                assert(v@.subrange(0, j as int).drop_last() =~= v@.subrange(0, j - 1));
                j = j - 1;
            }
            assert(p.subrange(0, k + 1) =~= v@.subrange(0, k + 1));
            assert(strip_trailing_slashes(v@.subrange(0, j as int)) == v@.subrange(0, j as int));
            if j == 0 {
                assert(v@.subrange(0, 1) =~= "/"@) by {
                    reveal_strlit("/");
                }
                Some(1)
            } else {
                Some(j)
            }
        },
    }
}

/// The parent of `path` (`Path::parent`), when it has one.
pub fn parent_dir(path: &str) -> (r: Option<String>)
    ensures
        match r {
            None => parent_text(path@) is None,
            Some(q) => parent_text(path@) == Some(q@),
        },
{
    let v = to_chars(path);
    assert(v@.subrange(0, v@.len() as int) =~= v@);
    match parent_end(v.as_slice(), v.len()) {
        None => None,
        Some(k) => Some(from_chars(v.as_slice(), 0, k)),
    }
}

proof fn lemma_last_index_concat(s: Seq<char>, t: Seq<char>, c: char)
    ensures
        last_index_of(t, c) >= 0 ==> last_index_of(s + t, c) == s.len() + last_index_of(t, c),
        last_index_of(t, c) < 0 ==> last_index_of(s + t, c) == last_index_of(s, c),
    decreases t.len(),
{
    if t.len() == 0 {
        assert(s + t =~= s);
    } else {
        let u = s + t;
        assert(u.last() == t.last());
        assert(u.drop_last() =~= s + t.drop_last());
        lemma_last_index_concat(s, t.drop_last(), c);
    }
}

/// A volume is known by its file name without the extension: for a backing
/// file `name.ext` in any directory, the volume's name is `name` (the part
/// before the last dot, so `vault.v2.img` is `vault.v2`).
pub proof fn law_volume_named_after_file_stem(dir: Seq<char>, name: Seq<char>, ext: Seq<char>)
    requires
        name.len() > 0,
        ext.len() > 0,
        forall|k: int| 0 <= k < name.len() ==> #[trigger] name[k] != '/',
        forall|k: int| 0 <= k < ext.len() ==> #[trigger] ext[k] != '/' && ext[k] != '.',
    ensures
        volume_name_text(dir + "/"@ + name + "."@ + ext) == name,
{
    reveal_strlit("/");
    reveal_strlit(".");
    reveal_strlit("..");
    let file = name + "."@ + ext;
    let p = dir + "/"@ + file;
    assert(p =~= dir + "/"@ + name + "."@ + ext);
    lemma_last_index_bounds(file, '/');
    if last_index_of(file, '/') >= 0 {
        let k = last_index_of(file, '/');
        if k < name.len() {
            assert(file[k] == name[k]);
        } else if k == name.len() {
            assert(file[k] == '.');
        } else {
            assert(file[k] == ext[k - name.len() - 1]);
        }
    }
    lemma_last_index_concat(dir + "/"@, file, '/');
    lemma_last_index_concat(dir, "/"@, '/');
    assert(last_index_of("/"@, '/') == 0) by {
        assert("/"@.last() == '/');
    }
    assert(last_segment(p) =~= file);
    assert(p.last() == ext.last());
    assert(file.len() >= 3);
    assert(file_name(p) == Some(file));
    lemma_last_index_bounds(ext, '.');
    if last_index_of(ext, '.') >= 0 {
        assert(ext[last_index_of(ext, '.')] == '.');
    }
    lemma_last_index_concat(name + "."@, ext, '.');
    lemma_last_index_concat(name, "."@, '.');
    assert(last_index_of("."@, '.') == 0) by {
        assert("."@.last() == '.');
    }
    assert(name + "."@ + ext =~= file);
    assert(file.subrange(0, name.len() as int) =~= name);
}

/// The name `exec-hooks` is told a volume is known by: the stem of the
/// file name of `path`, or all of `path` when it has no file name.
pub fn volume_name(path: &str) -> (r: String)
    ensures
        r@ == volume_name_text(path@),
{
    let v = to_chars(path);
    assert(v@.subrange(0, v@.len() as int) =~= v@);
    match file_name_range(v.as_slice(), v.len()) {
        None => String::from_str(path),
        Some((a, b)) => {
            let ghost name = v@.subrange(a as int, b as int);
            assert(v@.subrange(a as int, b as int) == name);
            match last_index_in(v.as_slice(), a, b, '.') {
                Some(d) if d > a => {
                    assert(name.subrange(0, d - a) =~= v@.subrange(a as int, d as int));
                    from_chars(v.as_slice(), a, d)
                },
                _ => from_chars(v.as_slice(), a, b),
            }
        },
    }
}

} // verus!
