//! The command line's own decisions: what a typed size, label or
//! confirmation means, which FIDO2 device selection the flags ask for, and
//! the lines printed around `unlock`.
use vstd::prelude::*;

use crate::domain::workflows::create::MIN_VOLUME_SIZE_BYTES;
use crate::ports::fido2_backend::Fido2DeviceSelection;
use crate::text::{
    all_digits, debug_quote, debug_quoted, decimal, has_infix, is_ws, lemma_trim_padded,
    lemma_trim_push, occurs_at, parse_u64, parsed_u64, push_decimal, text_eq, to_chars, trim,
    trim_chars, trim_start, unsigned_digits,
};

verus! {

/// A label is accepted unless it is empty or only whitespace.
pub fn parse_label(input: &str) -> (r: Result<String, String>)
    ensures
        trim(input@).len() == 0 ==> (r matches Err(m) && m@ == "label must not be empty"@),
        trim(input@).len() > 0 ==> (r matches Ok(l) && l@ == input@),
{
    let chars = to_chars(input);
    let trimmed = trim_chars(chars.as_slice());
    if trimmed.len() == 0 {
        Err(String::from_str("label must not be empty"))
    } else {
        Ok(String::from_str(input))
    }
}

/// The multiplier a size suffix stands for (binary: K, M, G, T in either
/// case), or none for any other last character.
pub open spec fn suffix_multiplier(c: char) -> Option<u64> {
    if c == 'k' || c == 'K' {
        Some(1024u64)
    } else if c == 'm' || c == 'M' {
        Some(1048576u64)
    } else if c == 'g' || c == 'G' {
        Some(1073741824u64)
    } else if c == 't' || c == 'T' {
        Some(1099511627776u64)
    } else {
        None
    }
}

/// What `parse_size` makes of `input`: the trimmed text, split into a
/// number and an optional binary suffix; the number (trimmed again) parsed
/// as a `u64` and multiplied out; refused when empty, not a number, over
/// 64 bits, or below the minimum volume size.
pub open spec fn size_of_input(input: Seq<char>) -> Result<u64, Seq<char>> {
    let t = trim(input);
    if t.len() == 0 {
        Err("size must not be empty"@)
    } else {
        let (number, multiplier) = match suffix_multiplier(t.last()) {
            Some(m) => (t.drop_last(), m),
            None => (t, 1u64),
        };
        match parsed_u64(trim(number)) {
            None => Err("invalid size "@ + debug_quoted(input)
                + " (expected a number, optionally followed by K/M/G/T)"@),
            Some(n) => if n * multiplier > u64::MAX {
                Err("size "@ + debug_quoted(input) + " is too large"@)
            } else if n * multiplier < MIN_VOLUME_SIZE_BYTES {
                Err("size "@ + debug_quoted(input) + " is too small (minimum is "@ + decimal(
                    MIN_VOLUME_SIZE_BYTES as nat,
                ) + " bytes / "@ + decimal((MIN_VOLUME_SIZE_BYTES / 1048576u64) as nat) + "M)"@)
            } else {
                Ok((n * multiplier) as u64)
            },
        }
    }
}

fn multiplier_of(c: char) -> (r: Option<u64>)
    ensures
        r == suffix_multiplier(c),
{
    if c == 'k' || c == 'K' {
        Some(1024)
    } else if c == 'm' || c == 'M' {
        Some(1024 * 1024)
    } else if c == 'g' || c == 'G' {
        Some(1024 * 1024 * 1024)
    } else if c == 't' || c == 'T' {
        Some(1024 * 1024 * 1024 * 1024)
    } else {
        None
    }
}

/// Parses a size with an optional K/M/G/T suffix (powers of 1024) into
/// bytes; no suffix means bytes.
pub fn parse_size(input: &str) -> (r: Result<u64, String>)
    ensures
        match size_of_input(input@) {
            Ok(n) => r == Ok::<u64, String>(n),
            Err(m) => r is Err && r->Err_0@ == m,
        },
{
    let chars = to_chars(input);
    let t = trim_chars(chars.as_slice());
    if t.len() == 0 {
        return Err(String::from_str("size must not be empty"));
    }
    let last = t[t.len() - 1];
    let (number, multiplier) = match multiplier_of(last) {
        Some(m) => {
            let mut n = t.clone();
            n.pop();
            assert(n@ =~= t@.drop_last());
            (n, m)
        },
        None => (t.clone(), 1u64),
    };
    assert(t@.len() > 0);
    let number_trimmed = trim_chars(number.as_slice());
    match parse_u64(number_trimmed.as_slice()) {
        None => {
            let mut m = String::from_str("invalid size ");
            let q = debug_quote(input);
            m.append(q.as_str());
            m.append(" (expected a number, optionally followed by K/M/G/T)");
            Err(m)
        },
        Some(n) => match n.checked_mul(multiplier) {
            None => {
                let mut m = String::from_str("size ");
                let q = debug_quote(input);
                m.append(q.as_str());
                m.append(" is too large");
                Err(m)
            },
            Some(bytes) => {
                if bytes < MIN_VOLUME_SIZE_BYTES {
                    let mut m = String::from_str("size ");
                    let q = debug_quote(input);
                    m.append(q.as_str());
                    m.append(" is too small (minimum is ");
                    push_decimal(&mut m, MIN_VOLUME_SIZE_BYTES);
                    m.append(" bytes / ");
                    push_decimal(&mut m, MIN_VOLUME_SIZE_BYTES / (1024 * 1024));
                    m.append("M)");
                    Err(m)
                } else {
                    Ok(bytes)
                }
            },
        },
    }
}

/// The size suffixes K, M, G and T are binary multipliers and either case
/// means the same: `suffix_multiplier` gives 2^10, 2^20, 2^30 and 2^40 for
/// each letter, lower or upper case, and nothing for any other character.
pub proof fn law_suffix_multipliers(c: char)
    ensures
        suffix_multiplier('k') == Some(1024u64) && suffix_multiplier('K') == Some(1024u64),
        suffix_multiplier('m') == Some(1048576u64) && suffix_multiplier('M') == Some(1048576u64),
        suffix_multiplier('g') == Some(1073741824u64) && suffix_multiplier('G') == Some(1073741824u64),
        suffix_multiplier('t') == Some(1099511627776u64) && suffix_multiplier('T') == Some(
            1099511627776u64,
        ),
        '0' <= c <= '9' ==> suffix_multiplier(c) is None,
{
}

/// Whether `lower` and `upper` are the two cases of one size suffix letter.
pub open spec fn suffix_pair(lower: char, upper: char) -> bool {
    ||| lower == 'k' && upper == 'K'
    ||| lower == 'm' && upper == 'M'
    ||| lower == 'g' && upper == 'G'
    ||| lower == 't' && upper == 'T'
}

/// A size suffix means the same in either case: for any number text, the
/// lower-case and the upper-case suffix are both accepted or both refused,
/// and when accepted they give the same number of bytes.
pub proof fn law_size_suffix_case_insensitive(number: Seq<char>, lower: char, upper: char)
    requires
        suffix_pair(lower, upper),
    ensures
        size_of_input(number.push(lower)) is Ok <==> size_of_input(number.push(upper)) is Ok,
        size_of_input(number.push(lower)) is Ok ==> size_of_input(number.push(lower))
            == size_of_input(number.push(upper)),
{
    assert(!is_ws(lower) && !is_ws(upper));
    lemma_trim_push(number, lower);
    lemma_trim_push(number, upper);
    assert(trim(number.push(lower)).drop_last() =~= trim_start(number));
    assert(trim(number.push(upper)).drop_last() =~= trim_start(number));
    assert(suffix_multiplier(lower) == suffix_multiplier(upper));
}

/// A number of `v` units with no whitespace in it, followed by a size
/// suffix, is `v` times that suffix's power of 1024 bytes (when that fits
/// in 64 bits and reaches the 32 MiB minimum); with no suffix it is `v`
/// bytes.
pub proof fn law_size_values(number: Seq<char>, v: u64, suffix: char, power: u64)
    requires
        forall|i: int| 0 <= i < number.len() ==> !is_ws(#[trigger] number[i]),
        parsed_u64(number) == Some(v),
        (suffix == 'k' || suffix == 'K') && power == 1024 || (suffix == 'm' || suffix == 'M') && power
            == 1048576 || (suffix == 'g' || suffix == 'G') && power == 1073741824 || (suffix == 't'
            || suffix == 'T') && power == 1099511627776u64,
    ensures
        v * power <= u64::MAX && v * power >= 33554432 ==> size_of_input(number.push(suffix))
            == Ok::<u64, Seq<char>>((v * power) as u64),
        v >= 33554432 ==> size_of_input(number) == Ok::<u64, Seq<char>>(v),
{
    assert(!is_ws(suffix));
    let d = unsigned_digits(number);
    assert(d.len() > 0 && all_digits(d));
    assert(number.len() > 0);
    assert(number.last() == d.last());
    assert(d.last() == d[d.len() - 1]);
    assert('0' <= number.last() <= '9');
    assert(trim_start(number) == number);
    assert(trim(number) == number) by {
        assert(!is_ws(number.last()));
    }
    assert(suffix_multiplier(number.last()) is None);
    assert(trim(trim(number)) == number);
    assert(v * 1u64 == v);
    lemma_trim_push(number, suffix);
    assert(trim(number.push(suffix)).drop_last() =~= number);
}

/// No size under the 32 MiB minimum is ever accepted, and a blank size is
/// refused.
pub proof fn law_accepted_sizes_reach_the_minimum(input: Seq<char>)
    ensures
        size_of_input(input) matches Ok(n) ==> n >= 32 * 1024 * 1024,
        trim(input).len() == 0 ==> size_of_input(input) is Err,
{
}

/// The unlock success line says where the volume was mounted: it ends with
/// the mount point and a full stop, whatever the mount point is, and a
/// read-only unlock says so.
pub proof fn law_unlock_success_names_the_mount_point(read_only: bool, mountpoint: Seq<char>)
    ensures
        unlock_success(read_only, mountpoint).len() >= mountpoint.len() + 1,
        unlock_success(read_only, mountpoint).subrange(
            unlock_success(read_only, mountpoint).len() - mountpoint.len() - 1,
            unlock_success(read_only, mountpoint).len() as int,
        ) == mountpoint + "."@,
        has_infix(unlock_success(read_only, mountpoint), "unlocked"@),
        read_only ==> has_infix(unlock_success(read_only, mountpoint), "read-only"@),
{
    reveal_strlit("Volume unlocked (read-only) and mounted at ");
    reveal_strlit("Volume unlocked and mounted at ");
    reveal_strlit(".");
    reveal_strlit("unlocked");
    reveal_strlit("read-only");
    let s = unlock_success(read_only, mountpoint);
    let prefix = if read_only {
        "Volume unlocked (read-only) and mounted at "@
    } else {
        "Volume unlocked and mounted at "@
    };
    assert(s == prefix + mountpoint + "."@);
    assert(s.subrange(s.len() - mountpoint.len() - 1, s.len() as int) =~= mountpoint + "."@);
    assert(s.subrange(7, 15) =~= "unlocked"@);
    assert(occurs_at(s, "unlocked"@, 7));
    if read_only {
        assert(s.subrange(17, 26) =~= "read-only"@);
        assert(occurs_at(s, "read-only"@, 17));
    }
}

/// Whether a line typed at a confirmation prompt is consent: exactly
/// `yes`, surrounding whitespace aside.
pub open spec fn is_yes(input: Seq<char>) -> bool {
    trim(input) == "yes"@
}

/// A confirmation counts only when the line is exactly `yes`, whatever
/// whitespace surrounds it: with any whitespace before and after, a word
/// whose ends are not whitespace is consent if and only if it is `yes`.
pub proof fn law_consent_is_exactly_yes(before: Seq<char>, word: Seq<char>, after: Seq<char>)
    requires
        forall|k: int| 0 <= k < before.len() ==> is_ws(#[trigger] before[k]),
        forall|k: int| 0 <= k < after.len() ==> is_ws(#[trigger] after[k]),
        word.len() > 0,
        !is_ws(word[0]),
        !is_ws(word.last()),
    ensures
        is_yes(before + word + after) <==> word == "yes"@,
{
    lemma_trim_padded(before, word, after);
}

fn typed_yes(input: &str) -> (r: bool)
    ensures
        r == is_yes(input@),
{
    let chars = to_chars(input);
    let t = trim_chars(chars.as_slice());
    let typed = crate::text::from_chars(t.as_slice(), 0, t.len());
    assert(t@.subrange(0, t@.len() as int) =~= t@);
    text_eq(typed.as_str(), "yes")
}

/// Consent at the device-wipe prompt.
pub fn confirms_wipe(input: &str) -> (r: bool)
    ensures
        r == is_yes(input@),
{
    typed_yes(input)
}

/// Consent at the revoke prompt.
pub fn confirms_revoke(input: &str) -> (r: bool)
    ensures
        r == is_yes(input@),
{
    typed_yes(input)
}

/// `(confirmed, announce)` for a device-backed create: a marker-verified
/// resume is never asked and never counts as confirmed (the workflow's own
/// marker check authorises it) but does go ahead; otherwise the typed
/// answer decides both.
pub fn device_create_confirmation(marker_verified_resume: bool, wipe_confirmed: bool) -> (r: (
    bool,
    bool,
))
    ensures
        marker_verified_resume ==> r == (false, true),
        !marker_verified_resume ==> r == (wipe_confirmed, wipe_confirmed),
{
    if marker_verified_resume {
        (false, true)
    } else {
        (wipe_confirmed, wipe_confirmed)
    }
}

/// The line printed before `unlock` asks for the key.
pub open spec fn unlock_intro(read_only: bool) -> Seq<char> {
    if read_only {
        "Touch your security key now (you may also be asked for its PIN). Unlocking read-only — no changes will be saved."@
    } else {
        "Touch your security key now (you may also be asked for its PIN)."@
    }
}

/// Before an unlock the user is asked to touch the security key, and a
/// read-only unlock also says that no changes will be saved.
pub proof fn law_unlock_intro_asks_for_the_key(read_only: bool)
    ensures
        has_infix(unlock_intro(read_only), "security key"@),
        read_only ==> has_infix(unlock_intro(read_only), "read-only"@),
        read_only ==> has_infix(unlock_intro(read_only), "no changes will be saved"@),
{
    reveal_strlit(
        "Touch your security key now (you may also be asked for its PIN). Unlocking read-only — no changes will be saved.",
    );
    reveal_strlit("Touch your security key now (you may also be asked for its PIN).");
    reveal_strlit("security key");
    reveal_strlit("read-only");
    reveal_strlit("no changes will be saved");
    let s = unlock_intro(read_only);
    assert(s.subrange(11, 23) =~= "security key"@);
    assert(occurs_at(s, "security key"@, 11));
    if read_only {
        assert(s.subrange(75, 84) =~= "read-only"@);
        assert(occurs_at(s, "read-only"@, 75));
        assert(s.subrange(87, 111) =~= "no changes will be saved"@);
        assert(occurs_at(s, "no changes will be saved"@, 87));
    }
}

pub fn unlock_intro_message(read_only: bool) -> (m: String)
    ensures
        m@ == unlock_intro(read_only),
{
    if read_only {
        String::from_str(
            "Touch your security key now (you may also be asked for its PIN). Unlocking read-only — no changes will be saved.",
        )
    } else {
        String::from_str("Touch your security key now (you may also be asked for its PIN).")
    }
}

/// The line printed after a successful `unlock`.
pub open spec fn unlock_success(read_only: bool, mountpoint: Seq<char>) -> Seq<char> {
    if read_only {
        "Volume unlocked (read-only) and mounted at "@ + mountpoint + "."@
    } else {
        "Volume unlocked and mounted at "@ + mountpoint + "."@
    }
}

pub fn unlock_success_message(read_only: bool, mountpoint: &str) -> (m: String)
    ensures
        m@ == unlock_success(read_only, mountpoint@),
{
    let mut m = if read_only {
        String::from_str("Volume unlocked (read-only) and mounted at ")
    } else {
        String::from_str("Volume unlocked and mounted at ")
    };
    m.append(mountpoint);
    m.append(".");
    m
}

/// `create`'s `--fido2-device`: that device when given (no existing key to
/// authenticate with), interactive selection otherwise.
pub fn fido2_selection_for_create(fido2_device: Option<String>) -> (r: Fido2DeviceSelection)
    ensures
        fido2_device is None ==> r == Fido2DeviceSelection::Interactive,
        fido2_device matches Some(d) ==> (r matches Fido2DeviceSelection::Explicit { new, existing }
            && new == d && existing is None),
{
    match fido2_device {
        Some(new) => Fido2DeviceSelection::Explicit { new, existing: None },
        None => Fido2DeviceSelection::Interactive,
    }
}

/// `enroll`'s `--fido2-device` and `--unlock-fido2-device`: both devices
/// when the new one is given, interactive selection otherwise.
pub fn fido2_selection_for_enroll(
    fido2_device: Option<String>,
    unlock_fido2_device: Option<String>,
) -> (r: Fido2DeviceSelection)
    ensures
        fido2_device is None ==> r == Fido2DeviceSelection::Interactive,
        fido2_device matches Some(d) ==> (r matches Fido2DeviceSelection::Explicit { new, existing }
            && new == d && existing == unlock_fido2_device),
{
    match fido2_device {
        Some(new) => Fido2DeviceSelection::Explicit { new, existing: unlock_fido2_device },
        None => Fido2DeviceSelection::Interactive,
    }
}

} // verus!
