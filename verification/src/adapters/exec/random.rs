//! Random hexadecimal text: the suffixes that keep generated names apart,
//! and the transient passphrase a new volume is bootstrapped with.
use vstd::prelude::*;
use zeroize::Zeroize;

use crate::text::{hex_digit, hex_digit_char, push_char};

verus! {

/// `getrandom::fill` from the getrandom crate: fills `dest` with bytes from
/// the system's random source. The bytes themselves are left unsaid; `Err`
/// carries the error's text.
#[verifier::external_body]
fn fill_random(dest: &mut Vec<u8>) -> (r: Result<(), String>)
    ensures
        final(dest)@.len() == old(dest)@.len(),
{
    getrandom::fill(dest.as_mut_slice()).map_err(|e| e.to_string())
}

/// `Zeroize::zeroize` on a byte slice, from the zeroize crate: overwrites
/// every byte with zero in a way the compiler does not elide.
#[verifier::external_body]
fn wipe(buf: &mut Vec<u8>)
    ensures
        final(buf)@.len() == old(buf)@.len(),
        forall|i: int| 0 <= i < final(buf)@.len() ==> final(buf)@[i] == 0u8,
{
    buf.as_mut_slice().zeroize();
}

/// Two lowercase hexadecimal digits per byte, in order.
pub open spec fn hex_of(bytes: Seq<u8>) -> Seq<char>
    decreases bytes.len(),
{
    if bytes.len() == 0 {
        seq![]
    } else {
        hex_of(bytes.drop_last()).push(hex_digit_char((bytes.last() / 16) as nat)).push(
            hex_digit_char((bytes.last() % 16) as nat),
        )
    }
}

/// Appends the lowercase hexadecimal rendering of `bytes` to `out`.
pub fn append_hex(out: &mut String, bytes: &Vec<u8>)
    ensures
        final(out)@ == old(out)@ + hex_of(bytes@),
{
    let ghost start = out@;
    let mut i: usize = 0;
    while i < bytes.len()
        invariant
            i <= bytes@.len(),
            out@ == start + hex_of(bytes@.subrange(0, i as int)),
        decreases bytes.len() - i,
    {
        let ghost pre = bytes@.subrange(0, i as int);
        assert(bytes@.subrange(0, i + 1).drop_last() =~= pre);
        assert(bytes@.subrange(0, i + 1).last() == bytes@[i as int]);
        let b = bytes[i];
        push_char(out, hex_digit((b / 16) as u64));
        push_char(out, hex_digit((b % 16) as u64));
        i = i + 1;
        assert(out@ =~= start + hex_of(bytes@.subrange(0, i as int)));
    }
    assert(bytes@.subrange(0, i as int) =~= bytes@);
}

proof fn lemma_hex_len(bytes: Seq<u8>)
    ensures
        hex_of(bytes).len() == 2 * bytes.len(),
    decreases bytes.len(),
{
    if bytes.len() > 0 {
        lemma_hex_len(bytes.drop_last());
    }
}

/// Sixteen random lowercase hex digits (8 random bytes): keeps sibling
/// generated names (temporary key files, mount points) from colliding,
/// without carrying any secret.
pub fn random_hex_suffix() -> (r: Result<String, String>)
    ensures
        r matches Ok(s) ==> exists|b: Seq<u8>| b.len() == 8 && s@ == hex_of(b),
        r matches Ok(s) ==> s@.len() == 16,
        r matches Err(m) ==> exists|e: Seq<char>| m@ == "failed to generate random suffix: "@ + e,
{
    let mut bytes: Vec<u8> = vec![0u8; 8];
    if let Err(e) = fill_random(&mut bytes) {
        let mut m = String::from_str("failed to generate random suffix: ");
        m.append(e.as_str());
        return Err(m);
    }
    let mut s = String::new();
    append_hex(&mut s, &bytes);
    proof {
        lemma_hex_len(bytes@);
        assert(s@ =~= hex_of(bytes@));
    }
    Ok(s)
}

/// Appends the transient bootstrap passphrase — 64 lowercase hex digits of
/// 32 random bytes — to `out`, which the caller keeps in memory that is
/// wiped on drop; the random bytes themselves are wiped before returning.
/// On failure `out` is left as it was.
pub fn append_transient_passphrase(out: &mut String) -> (r: Result<(), String>)
    ensures
        r is Ok ==> exists|b: Seq<u8>| b.len() == 32 && final(out)@ == old(out)@ + hex_of(b),
        r matches Err(m) ==> final(out)@ == old(out)@ && exists|e: Seq<char>| m@
            == "failed to generate transient bootstrap passphrase: "@ + e,
{
    let mut bytes: Vec<u8> = vec![0u8; 32];
    if let Err(e) = fill_random(&mut bytes) {
        wipe(&mut bytes);
        let mut m = String::from_str("failed to generate transient bootstrap passphrase: ");
        m.append(e.as_str());
        return Err(m);
    }
    let ghost drawn = bytes@;
    append_hex(out, &bytes);
    wipe(&mut bytes);
    assert(drawn.len() == 32);
    Ok(())
}

} // verus!
