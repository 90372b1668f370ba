//! Character-level text helpers the rest of the library is built on: each
//! one states exactly what it computes over `Seq<char>`.
use vstd::prelude::*;

verus! {

/// `String::push` from std: appends one character.
#[verifier::external_body]
pub(crate) fn push_char(s: &mut String, c: char)
    ensures
        final(s)@ == old(s)@.push(c),
{
    s.push(c);
}

/// The characters of `s`, in order.
pub fn to_chars(s: &str) -> (v: Vec<char>)
    ensures
        v@ == s@,
{
    let n = s.unicode_len();
    let mut v: Vec<char> = Vec::new();
    let mut i: usize = 0;
    while i < n
        invariant
            n == s@.len(),
            i <= n,
            v@ == s@.subrange(0, i as int),
        decreases n - i,
    {
        let c = s.get_char(i);
        v.push(c);
        i = i + 1;
        assert(v@ =~= s@.subrange(0, i as int));
    }
    assert(v@ =~= s@);
    v
}

/// A `String` holding exactly the characters `v[from..to]`.
pub fn from_chars(v: &[char], from: usize, to: usize) -> (s: String)
    requires
        from <= to <= v@.len(),
    ensures
        s@ == v@.subrange(from as int, to as int),
{
    let mut s = String::new();
    let mut i = from;
    while i < to
        invariant
            from <= i <= to <= v@.len(),
            s@ == v@.subrange(from as int, i as int),
        decreases to - i,
    {
        push_char(&mut s, v[i]);
        i = i + 1;
        assert(s@ =~= v@.subrange(from as int, i as int));
    }
    s
}

/// `s` followed by `t`.
pub fn concat(s: &str, t: &str) -> (r: String)
    ensures
        r@ == s@ + t@,
{
    let mut r = String::from_str(s);
    r.append(t);
    r
}

/// Whether two strings hold the same characters.
pub fn text_eq(a: &str, b: &str) -> (r: bool)
    ensures
        r == (a@ == b@),
{
    let x = String::from_str(a);
    let y = String::from_str(b);
    x == y
}

/// Rust's `char::is_whitespace`: the Unicode `White_Space` property.
pub open spec fn is_ws(c: char) -> bool {
    let u = c as u32;
    ||| 0x09 <= u <= 0x0d
    ||| u == 0x20
    ||| u == 0x85
    ||| u == 0xa0
    ||| u == 0x1680
    ||| 0x2000 <= u <= 0x200a
    ||| u == 0x2028
    ||| u == 0x2029
    ||| u == 0x202f
    ||| u == 0x205f
    ||| u == 0x3000
}

pub fn char_is_whitespace(c: char) -> (r: bool)
    ensures
        r == is_ws(c),
{
    let u = c as u32;
    (0x09 <= u && u <= 0x0d) || u == 0x20 || u == 0x85 || u == 0xa0 || u == 0x1680 || (0x2000
        <= u && u <= 0x200a) || u == 0x2028 || u == 0x2029 || u == 0x202f || u == 0x205f || u
        == 0x3000
}

/// `s` without its leading whitespace.
pub open spec fn trim_start(s: Seq<char>) -> Seq<char>
    decreases s.len(),
{
    if s.len() > 0 && is_ws(s[0]) {
        trim_start(s.drop_first())
    } else {
        s
    }
}

/// `s` without its trailing whitespace.
pub open spec fn trim_end(s: Seq<char>) -> Seq<char>
    decreases s.len(),
{
    if s.len() > 0 && is_ws(s.last()) {
        trim_end(s.drop_last())
    } else {
        s
    }
}

/// `str::trim`: `s` without leading or trailing whitespace.
pub open spec fn trim(s: Seq<char>) -> Seq<char> {
    trim_end(trim_start(s))
}

proof fn lemma_trim_start_from(s: Seq<char>, i: int)
    requires
        0 <= i <= s.len(),
        forall|k: int| 0 <= k < i ==> is_ws(#[trigger] s[k]),
    ensures
        trim_start(s) == trim_start(s.subrange(i, s.len() as int)),
    decreases i,
{
    if i > 0 {
        assert(s.drop_first() =~= s.subrange(1, s.len() as int));
        let t = s.drop_first();
        assert forall|k: int| 0 <= k < i - 1 implies is_ws(#[trigger] t[k]) by {
            assert(t[k] == s[k + 1]);
        }
        lemma_trim_start_from(t, i - 1);
        assert(t.subrange(i - 1, t.len() as int) =~= s.subrange(i, s.len() as int));
    } else {
        assert(s.subrange(0, s.len() as int) =~= s);
    }
}

proof fn lemma_trim_end_upto(s: Seq<char>, j: int)
    requires
        0 <= j <= s.len(),
        forall|k: int| j <= k < s.len() ==> is_ws(#[trigger] s[k]),
    ensures
        trim_end(s) == trim_end(s.subrange(0, j)),
    decreases s.len() - j,
{
    if j < s.len() {
        let t = s.drop_last();
        assert forall|k: int| j <= k < t.len() implies is_ws(#[trigger] t[k]) by {
            assert(t[k] == s[k]);
        }
        lemma_trim_end_upto(t, j);
        assert(t.subrange(0, j) =~= s.subrange(0, j));
    } else {
        assert(s.subrange(0, j) =~= s);
    }
}

/// A non-whitespace character appended to `x` survives trimming: the
/// trimmed text is `x` without its leading whitespace, then `c`.
pub proof fn lemma_trim_push(x: Seq<char>, c: char)
    requires
        !is_ws(c),
    ensures
        trim(x.push(c)) == trim_start(x).push(c),
    decreases x.len(),
{
    lemma_trim_start_push(x, c);
    let t = trim_start(x).push(c);
    assert(t.last() == c);
}

proof fn lemma_trim_start_push(x: Seq<char>, c: char)
    requires
        !is_ws(c),
    ensures
        trim_start(x.push(c)) == trim_start(x).push(c),
    decreases x.len(),
{
    if x.len() == 0 {
        assert(x.push(c)[0] == c);
    } else if is_ws(x[0]) {
        assert(x.push(c).drop_first() =~= x.drop_first().push(c));
        lemma_trim_start_push(x.drop_first(), c);
    } else {
        assert(x.push(c)[0] == x[0]);
    }
}

/// Trimming strips exactly the whitespace padding around a text whose
/// first and last characters are not whitespace.
pub proof fn lemma_trim_padded(a: Seq<char>, core: Seq<char>, b: Seq<char>)
    requires
        forall|k: int| 0 <= k < a.len() ==> is_ws(#[trigger] a[k]),
        forall|k: int| 0 <= k < b.len() ==> is_ws(#[trigger] b[k]),
        core.len() > 0,
        !is_ws(core[0]),
        !is_ws(core.last()),
    ensures
        trim(a + core + b) == core,
{
    let s = a + core + b;
    assert forall|k: int| 0 <= k < a.len() implies is_ws(#[trigger] s[k]) by {
        assert(s[k] == a[k]);
    }
    lemma_trim_start_from(s, a.len() as int);
    let rest = s.subrange(a.len() as int, s.len() as int);
    assert(rest =~= core + b);
    assert(rest[0] == core[0]);
    assert(trim_start(rest) == rest);
    assert forall|k: int| core.len() <= k < rest.len() implies is_ws(#[trigger] rest[k]) by {
        assert(rest[k] == b[k - core.len()]);
    }
    lemma_trim_end_upto(rest, core.len() as int);
    assert(rest.subrange(0, core.len() as int) =~= core);
    assert(core.len() > 0 && is_ws(core.last()) == false);
}

/// `str::trim` as a character vector.
pub fn trim_chars(v: &[char]) -> (r: Vec<char>)
    ensures
        r@ == trim(v@),
{
    let n = v.len();
    let mut i: usize = 0;
    while i < n && char_is_whitespace(v[i])
        invariant
            i <= n == v@.len(),
            forall|k: int| 0 <= k < i ==> is_ws(#[trigger] v@[k]),
        decreases n - i,
    {
        i = i + 1;
    }
    proof {
        lemma_trim_start_from(v@, i as int);
    }
    let ghost rest = v@.subrange(i as int, n as int);
    assert(rest.len() == 0 || !is_ws(rest[0]));
    assert(trim_start(rest) == rest);
    let mut j: usize = n;
    while j > i && char_is_whitespace(v[j - 1])
        invariant
            i <= j <= n == v@.len(),
            forall|k: int| j <= k < n ==> is_ws(#[trigger] v@[k]),
        decreases j,
    {
        j = j - 1;
    }
    proof {
        assert forall|k: int| j - i <= k < rest.len() implies is_ws(#[trigger] rest[k]) by {
            assert(rest[k] == v@[k + i]);
        }
        lemma_trim_end_upto(rest, j - i);
        let t = rest.subrange(0, j - i);
        assert(t.len() == 0 || !is_ws(t.last())) by {
            if t.len() > 0 {
                assert(t.last() == v@[j - 1]);
            }
        }
        assert(trim_end(t) == t);
        assert(t =~= v@.subrange(i as int, j as int));
    }
    let mut r: Vec<char> = Vec::new();
    let mut k = i;
    while k < j
        invariant
            i <= k <= j <= n == v@.len(),
            r@ == v@.subrange(i as int, k as int),
        decreases j - k,
    {
        r.push(v[k]);
        k = k + 1;
        assert(r@ =~= v@.subrange(i as int, k as int));
    }
    r
}

/// Left-to-right scan for `split_whitespace`: the words completed so far
/// and the word still being read.
pub open spec fn word_scan(s: Seq<char>) -> (Seq<Seq<char>>, Seq<char>)
    decreases s.len(),
{
    if s.len() == 0 {
        (seq![], seq![])
    } else {
        let (done, cur) = word_scan(s.drop_last());
        let c = s.last();
        if is_ws(c) {
            if cur.len() > 0 {
                (done.push(cur), seq![])
            } else {
                (done, cur)
            }
        } else {
            (done, cur.push(c))
        }
    }
}

/// `str::split_whitespace`: the maximal runs of non-whitespace characters
/// of `s`, in order.
pub open spec fn words_of(s: Seq<char>) -> Seq<Seq<char>> {
    let (done, cur) = word_scan(s);
    if cur.len() > 0 {
        done.push(cur)
    } else {
        done
    }
}

/// Left-to-right scan for splitting on `'\n'`: the lines completed so far
/// and the line still being read.
pub open spec fn line_scan(s: Seq<char>) -> (Seq<Seq<char>>, Seq<char>)
    decreases s.len(),
{
    if s.len() == 0 {
        (seq![], seq![])
    } else {
        let (done, cur) = line_scan(s.drop_last());
        let c = s.last();
        if c == '\n' {
            (done.push(cur), seq![])
        } else {
            (done, cur.push(c))
        }
    }
}

/// The pieces of `s` between `'\n'` characters, the last one included even
/// when empty.
pub open spec fn lines_of(s: Seq<char>) -> Seq<Seq<char>> {
    let (done, cur) = line_scan(s);
    done.push(cur)
}

/// Splits `text` on `'\n'` (see `lines_of`).
pub fn split_lines(text: &str) -> (r: Vec<String>)
    ensures
        r@.map_values(|l: String| l@) == lines_of(text@),
{
    let chars = to_chars(text);
    let mut lines: Vec<String> = Vec::new();
    let mut line: Vec<char> = Vec::new();
    let mut i: usize = 0;
    while i < chars.len()
        invariant
            i <= chars@.len(),
            chars@ == text@,
            line@ == line_scan(chars@.subrange(0, i as int)).1,
            lines@.map_values(|l: String| l@) == line_scan(chars@.subrange(0, i as int)).0,
        decreases chars.len() - i,
    {
        let ghost pre = chars@.subrange(0, i as int);
        assert(chars@.subrange(0, i + 1).drop_last() =~= pre);
        assert(chars@.subrange(0, i + 1).last() == chars@[i as int]);
        let c = chars[i];
        if c == '\n' {
            let done = from_chars(line.as_slice(), 0, line.len());
            assert(line@.subrange(0, line@.len() as int) =~= line@);
            let ghost before = lines@.map_values(|l: String| l@);
            lines.push(done);
            assert(lines@.map_values(|l: String| l@) =~= before.push(line@));
            line = Vec::new();
        } else {
            line.push(c);
        }
        i = i + 1;
    }
    assert(chars@.subrange(0, i as int) =~= text@);
    let last = from_chars(line.as_slice(), 0, line.len());
    assert(line@.subrange(0, line@.len() as int) =~= line@);
    let ghost before = lines@.map_values(|l: String| l@);
    lines.push(last);
    assert(lines@.map_values(|l: String| l@) =~= before.push(line@));
    lines
}

/// `split_whitespace` over a character vector.
pub fn split_words(v: &[char]) -> (r: Vec<String>)
    ensures
        r@.map_values(|w: String| w@) == words_of(v@),
{
    let mut done: Vec<String> = Vec::new();
    let mut cur: Vec<char> = Vec::new();
    let mut i: usize = 0;
    while i < v.len()
        invariant
            i <= v@.len(),
            word_scan(v@.subrange(0, i as int)) == (done@.map_values(|w: String| w@), cur@),
        decreases v.len() - i,
    {
        let ghost pre = v@.subrange(0, i as int);
        assert(v@.subrange(0, i + 1).drop_last() =~= pre);
        assert(v@.subrange(0, i + 1).last() == v@[i as int]);
        let c = v[i];
        if char_is_whitespace(c) {
            if cur.len() > 0 {
                let w = from_chars(cur.as_slice(), 0, cur.len());
                assert(cur@.subrange(0, cur@.len() as int) =~= cur@);
                let ghost old_done = done@;
                done.push(w);
                assert(done@.map_values(|w: String| w@) =~= old_done.map_values(|w: String| w@).push(cur@));
                cur = Vec::new();
            }
        } else {
            cur.push(c);
        }
        i = i + 1;
        assert(word_scan(v@.subrange(0, i as int)) == (done@.map_values(|w: String| w@), cur@));
    }
    assert(v@.subrange(0, i as int) =~= v@);
    if cur.len() > 0 {
        let w = from_chars(cur.as_slice(), 0, cur.len());
        assert(cur@.subrange(0, cur@.len() as int) =~= cur@);
        let ghost old_done = done@;
        done.push(w);
        assert(done@.map_values(|w: String| w@) =~= old_done.map_values(|w: String| w@).push(cur@));
    }
    done
}

/// Whether `needle` occurs in `hay` starting at position `i`.
pub open spec fn occurs_at(hay: Seq<char>, needle: Seq<char>, i: int) -> bool {
    0 <= i && i + needle.len() <= hay.len() && hay.subrange(i, i + needle.len()) == needle
}

/// `str::contains` for a string pattern: `needle` occurs somewhere in `hay`.
pub open spec fn has_infix(hay: Seq<char>, needle: Seq<char>) -> bool {
    exists|i: int| occurs_at(hay, needle, i)
}

/// What stands between two texts occurs in their concatenation.
pub proof fn lemma_infix_of_concat(a: Seq<char>, b: Seq<char>, c: Seq<char>)
    ensures
        has_infix(a + b + c, b),
{
    let s = a + b + c;
    assert(s.subrange(a.len() as int, (a.len() + b.len()) as int) =~= b);
    assert(occurs_at(s, b, a.len() as int));
}

/// Text found inside `b` is still found once more text surrounds `b`.
pub proof fn lemma_infix_extend(a: Seq<char>, b: Seq<char>, c: Seq<char>, x: Seq<char>)
    requires
        has_infix(b, x),
    ensures
        has_infix(a + b + c, x),
{
    let i = choose|i: int| occurs_at(b, x, i);
    let s = a + b + c;
    assert(s.subrange(a.len() + i, a.len() + i + x.len()) =~= b.subrange(i, i + x.len()));
    assert(occurs_at(s, x, a.len() + i));
}

/// Whether `needle` occurs in `hay` at position `i` (exec).
fn occurs_at_exec(hay: &[char], needle: &[char], i: usize) -> (r: bool)
    ensures
        r == occurs_at(hay@, needle@, i as int),
{
    if needle.len() > hay.len() || i > hay.len() - needle.len() {
        return false;
    }
    let mut k: usize = 0;
    while k < needle.len()
        invariant
            i + needle.len() <= hay.len(),
            k <= needle@.len(),
            forall|m: int| 0 <= m < k ==> hay@[i + m] == needle@[m],
        decreases needle.len() - k,
    {
        assert(i + k < hay@.len());
        if hay[i + k] != needle[k] {
            assert(hay@.subrange(i as int, i + needle@.len())[k as int] != needle@[k as int]);
            return false;
        }
        k = k + 1;
    }
    assert(hay@.subrange(i as int, i + needle@.len()) =~= needle@);
    true
}

/// `hay.contains(needle)` over character vectors.
pub fn contains_chars(hay: &[char], needle: &[char]) -> (r: bool)
    ensures
        r == has_infix(hay@, needle@),
{
    if needle.len() > hay.len() {
        return false;
    }
    let last = hay.len() - needle.len();
    let mut i: usize = 0;
    loop
        invariant
            last + needle@.len() == hay@.len(),
            i <= last,
            forall|m: int| 0 <= m < i ==> !occurs_at(hay@, needle@, m),
        decreases last - i,
    {
        if occurs_at_exec(hay, needle, i) {
            return true;
        }
        if i == last {
            assert forall|m: int| !occurs_at(hay@, needle@, m) by {
                if 0 <= m <= last {
                    assert(m < i || m == last);
                }
            }
            return false;
        }
        i = i + 1;
    }
}

/// `hay.contains(needle)`.
pub fn contains(hay: &str, needle: &str) -> (r: bool)
    ensures
        r == has_infix(hay@, needle@),
{
    let h = to_chars(hay);
    let n = to_chars(needle);
    contains_chars(h.as_slice(), n.as_slice())
}

/// The decimal rendering of a signed integer, with a leading `-` when
/// negative.
pub open spec fn signed_decimal(n: int) -> Seq<char> {
    if n < 0 {
        "-"@ + decimal((-n) as nat)
    } else {
        decimal(n as nat)
    }
}

/// Appends the decimal rendering of `n` to `s`.
pub fn push_signed_decimal(s: &mut String, n: i32)
    ensures
        final(s)@ == old(s)@ + signed_decimal(n as int),
{
    if n < 0 {
        s.append("-");
        let m: i64 = -(n as i64);
        push_decimal(s, m as u64);
        assert(old(s)@ + "-"@ + decimal(m as nat) =~= old(s)@ + signed_decimal(n as int));
    } else {
        push_decimal(s, n as u64);
    }
}

/// Whether `prefix` begins `s`.
pub open spec fn starts_with(s: Seq<char>, prefix: Seq<char>) -> bool {
    prefix.len() <= s.len() && s.subrange(0, prefix.len() as int) == prefix
}

/// The last position at which `needle` occurs in `hay`, when it occurs.
pub open spec fn is_last_occurrence(hay: Seq<char>, needle: Seq<char>, i: int) -> bool {
    occurs_at(hay, needle, i) && forall|j: int| i < j ==> !#[trigger] occurs_at(hay, needle, j)
}

/// `str::rsplit_once(sep)`'s first half: the text before the last `sep`,
/// or `None` when `sep` does not occur.
pub open spec fn before_last(hay: Seq<char>, sep: Seq<char>) -> Option<Seq<char>> {
    if has_infix(hay, sep) {
        let i = choose|i: int| is_last_occurrence(hay, sep, i);
        Some(hay.subrange(0, i))
    } else {
        None
    }
}

proof fn lemma_last_occurrence_unique(hay: Seq<char>, needle: Seq<char>, a: int, b: int)
    requires
        is_last_occurrence(hay, needle, a),
        is_last_occurrence(hay, needle, b),
    ensures
        a == b,
{
    if a < b {
        assert(!occurs_at(hay, needle, b));
    } else if b < a {
        assert(!occurs_at(hay, needle, a));
    }
}

/// The text of `v` before the last occurrence of `sep`, if any.
pub fn text_before_last(v: &[char], sep: &[char]) -> (r: Option<Vec<char>>)
    ensures
        match r {
            None => before_last(v@, sep@) is None,
            Some(w) => before_last(v@, sep@) == Some(w@),
        },
{
    if sep.len() > v.len() {
        assert(!has_infix(v@, sep@));
        return None;
    }
    let last = v.len() - sep.len();
    let mut i: usize = last;
    loop
        invariant
            i <= last,
            last + sep@.len() == v@.len(),
            forall|j: int| i < j ==> !#[trigger] occurs_at(v@, sep@, j),
        decreases i,
    {
        if occurs_at_exec(v, sep, i) {
            let k = i;
            assert(is_last_occurrence(v@, sep@, k as int));
            assert(has_infix(v@, sep@));
            let ghost c = choose|c: int| is_last_occurrence(v@, sep@, c);
            proof {
                lemma_last_occurrence_unique(v@, sep@, c, k as int);
            }
            let mut w: Vec<char> = Vec::new();
            let mut m: usize = 0;
            while m < k
                invariant
                    m <= k <= v@.len(),
                    w@ == v@.subrange(0, m as int),
                decreases k - m,
            {
                w.push(v[m]);
                m = m + 1;
                assert(w@ =~= v@.subrange(0, m as int));
            }
            return Some(w);
        }
        if i == 0 {
            assert forall|j: int| !occurs_at(v@, sep@, j) by {
                if 0 <= j && j <= i {
                    assert(j == i);
                }
            }
            assert(!has_infix(v@, sep@));
            return None;
        }
        i = i - 1;
    }
}

/// Whether `c` is an ASCII decimal digit.
pub open spec fn is_digit(c: char) -> bool {
    '0' <= c <= '9'
}

/// The value of a run of decimal digits.
pub open spec fn digits_value(s: Seq<char>) -> int
    decreases s.len(),
{
    if s.len() == 0 {
        0
    } else {
        10 * digits_value(s.drop_last()) + ((s.last() as u32) - ('0' as u32))
    }
}

/// `s` without one leading `+`.
pub open spec fn unsigned_digits(s: Seq<char>) -> Seq<char> {
    if s.len() > 0 && s[0] == '+' {
        s.drop_first()
    } else {
        s
    }
}

/// Whether every character of `s` is an ASCII digit.
pub open spec fn all_digits(s: Seq<char>) -> bool {
    forall|i: int| 0 <= i < s.len() ==> is_digit(#[trigger] s[i])
}

/// `u64::from_str`: an optional `+`, then one or more ASCII digits whose
/// value fits in 64 bits.
pub open spec fn parsed_u64(s: Seq<char>) -> Option<u64> {
    let d = unsigned_digits(s);
    if d.len() > 0 && all_digits(d) && digits_value(d) <= u64::MAX {
        Some(digits_value(d) as u64)
    } else {
        None
    }
}

proof fn lemma_digits_value_nonneg(s: Seq<char>)
    requires
        forall|i: int| 0 <= i < s.len() ==> is_digit(#[trigger] s[i]),
    ensures
        digits_value(s) >= 0,
    decreases s.len(),
{
    if s.len() > 0 {
        lemma_digits_value_nonneg(s.drop_last());
    }
}

/// Parses `v` as `u64::from_str` does.
pub fn parse_u64(v: &[char]) -> (r: Option<u64>)
    ensures
        r == parsed_u64(v@),
{
    let start: usize = if v.len() > 0 && v[0] == '+' {
        1
    } else {
        0
    };
    let ghost d = unsigned_digits(v@);
    assert(d =~= v@.subrange(start as int, v@.len() as int));
    if start == v.len() {
        return None;
    }
    let mut value: u64 = 0;
    let mut overflowed = false;
    let mut i: usize = start;
    while i < v.len()
        invariant
            start <= i <= v@.len(),
            d == v@.subrange(start as int, v@.len() as int),
            d == unsigned_digits(v@),
            forall|k: int| start <= k < i ==> is_digit(#[trigger] v@[k]),
            !overflowed ==> value == digits_value(v@.subrange(start as int, i as int)),
            overflowed ==> digits_value(v@.subrange(start as int, i as int)) > u64::MAX,
        decreases v.len() - i,
    {
        let c = v[i];
        if !('0' <= c && c <= '9') {
            assert(!is_digit(d[i - start]));
            assert(!all_digits(d));
            return None;
        }
        let ghost pre = v@.subrange(start as int, i as int);
        assert(v@.subrange(start as int, i + 1).drop_last() =~= pre);
        proof {
            assert forall|k: int| 0 <= k < pre.len() implies is_digit(#[trigger] pre[k]) by {
                assert(pre[k] == v@[start + k]);
            }
            lemma_digits_value_nonneg(pre);
        }
        let digit = (c as u32 - '0' as u32) as u64;
        if !overflowed {
            match value.checked_mul(10) {
                Some(t) => match t.checked_add(digit) {
                    Some(n) => {
                        value = n;
                    },
                    None => {
                        overflowed = true;
                    },
                },
                None => {
                    overflowed = true;
                },
            }
        }
        i = i + 1;
    }
    if overflowed {
        None
    } else {
        assert forall|k: int| 0 <= k < d.len() implies is_digit(#[trigger] d[k]) by {
            assert(d[k] == v@[start + k]);
        }
        assert(all_digits(d));
        Some(value)
    }
}

/// The decimal digit character for `d < 10`.
pub open spec fn digit_char(d: nat) -> char {
    (('0' as u32) + d) as char
}

/// The decimal rendering of `n` with no leading zeros (`"0"` for zero).
pub open spec fn decimal(n: nat) -> Seq<char>
    decreases n,
{
    if n < 10 {
        seq![digit_char(n)]
    } else {
        decimal(n / 10).push(digit_char(n % 10))
    }
}

fn digit(d: u64) -> (c: char)
    requires
        d < 10,
    ensures
        c == digit_char(d as nat),
{
    if d == 0 { '0' }
    else if d == 1 { '1' }
    else if d == 2 { '2' }
    else if d == 3 { '3' }
    else if d == 4 { '4' }
    else if d == 5 { '5' }
    else if d == 6 { '6' }
    else if d == 7 { '7' }
    else if d == 8 { '8' }
    else { '9' }
}

/// Appends the decimal rendering of `n` to `s`.
pub fn push_decimal(s: &mut String, n: u64)
    ensures
        final(s)@ == old(s)@ + decimal(n as nat),
    decreases n,
{
    if n >= 10 {
        push_decimal(s, n / 10);
    }
    push_char(s, digit(n % 10));
    assert(decimal(n as nat) == if n < 10 {
        seq![digit_char(n as nat)]
    } else {
        decimal((n / 10) as nat).push(digit_char((n % 10) as nat))
    });
}

/// The lowercase hexadecimal digit character for `d < 16`.
pub open spec fn hex_digit_char(d: nat) -> char {
    if d < 10 {
        digit_char(d)
    } else {
        (('a' as u32) + (d - 10)) as char
    }
}

/// The last `width` lowercase hexadecimal digits of `n`, zero-padded.
pub open spec fn hex_fixed(n: nat, width: nat) -> Seq<char>
    decreases width,
{
    if width == 0 {
        seq![]
    } else {
        hex_fixed(n / 16, (width - 1) as nat).push(hex_digit_char(n % 16))
    }
}

/// The value a lowercase hexadecimal digit stands for.
pub open spec fn hex_value_of(c: char) -> int {
    if '0' <= c <= '9' {
        c as int - '0' as int
    } else {
        c as int - 'a' as int + 10
    }
}

/// The number that hexadecimal digits write, most significant first.
pub open spec fn hex_number(s: Seq<char>) -> int
    decreases s.len(),
{
    if s.len() == 0 {
        0
    } else {
        16 * hex_number(s.drop_last()) + hex_value_of(s.last())
    }
}

/// Fixed-width hexadecimal is `width` lowercase hexadecimal digits that
/// read back as `n` modulo 16^`width` (so as `n` itself whenever it fits).
pub proof fn law_hex_fixed_reads_back(n: nat, width: nat)
    ensures
        hex_fixed(n, width).len() == width,
        forall|i: int|
            0 <= i < width ==> ('0' <= #[trigger] hex_fixed(n, width)[i] <= '9' || 'a' <= hex_fixed(
                n,
                width,
            )[i] <= 'f'),
        hex_number(hex_fixed(n, width)) == (n as int) % vstd::arithmetic::power::pow(16, width),
    decreases width,
{
    reveal(vstd::arithmetic::power::pow);
    if width > 0 {
        let w1 = (width - 1) as nat;
        law_hex_fixed_reads_back(n / 16, w1);
        let prev = hex_fixed(n / 16, w1);
        let d = n % 16;
        let c = hex_digit_char(d);
        let s = hex_fixed(n, width);
        assert(s == prev.push(c));
        assert(s.drop_last() =~= prev);
        assert(hex_value_of(c) == d);
        assert forall|i: int| 0 <= i < width implies ('0' <= #[trigger] s[i] <= '9' || 'a' <= s[i]
            <= 'f') by {
            if i < w1 {
                assert(s[i] == prev[i]);
            }
        }
        vstd::arithmetic::power::lemma_pow_positive(16, w1);
        let p = vstd::arithmetic::power::pow(16, w1);
        vstd::arithmetic::div_mod::lemma_mod_breakdown(n as int, 16, p);
        assert(vstd::arithmetic::power::pow(16, width) == 16 * p);
    }
}

pub fn hex_digit(d: u64) -> (c: char)
    requires
        d < 16,
    ensures
        c == hex_digit_char(d as nat),
{
    if d < 10 { digit(d) }
    else if d == 10 { 'a' }
    else if d == 11 { 'b' }
    else if d == 12 { 'c' }
    else if d == 13 { 'd' }
    else if d == 14 { 'e' }
    else { 'f' }
}

/// Appends the last `width` hexadecimal digits of `n`, zero-padded.
pub fn push_hex_fixed(s: &mut String, n: u64, width: u64)
    ensures
        final(s)@ == old(s)@ + hex_fixed(n as nat, width as nat),
    decreases width,
{
    if width > 0 {
        push_hex_fixed(s, n / 16, width - 1);
        push_char(s, hex_digit(n % 16));
        assert(hex_fixed(n as nat, width as nat) == hex_fixed((n / 16) as nat, (width - 1) as nat).push(
            hex_digit_char((n % 16) as nat),
        ));
    } else {
        assert(old(s)@ + hex_fixed(n as nat, 0) =~= old(s)@);
    }
}

/// `format!("{:?}", s)` from std: `s` quoted and escaped as Rust's `Debug`
/// for `str` renders it.
pub uninterp spec fn debug_quoted(s: Seq<char>) -> Seq<char>;

/// `<str as Debug>::fmt` from std, through `format!`.
#[verifier::external_body]
pub(crate) fn debug_quote(s: &str) -> (r: String)
    ensures
        r@ == debug_quoted(s@),
{
    format!("{:?}", s)
}

} // verus!
