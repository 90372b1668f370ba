//! The deterministic dm-crypt mapping name of a volume: a fixed prefix and
//! an FNV-1a hash of its canonical path, stable across upgrades.
use vstd::prelude::*;

use crate::domain::errors::DomainError;
use crate::domain::paths::{parent_dir, parent_text};
use crate::ports::fido2_backend::Fido2Backend;
use crate::ports::filesystem_backend::FilesystemBackend;
use crate::ports::journal::{extends, PortCall, Ports};
use crate::ports::luks_backend::LuksBackend;
use crate::text::{concat, hex_fixed, hex_number, law_hex_fixed_reads_back, push_hex_fixed};

verus! {

/// The prefix of every mapping name this tool creates.
pub const MAPPING_NAME_PREFIX: &'static str = "vault";

pub const FNV_OFFSET_BASIS: u64 = 0xcbf29ce484222325;

pub const FNV_PRIME: u64 = 0x0000_0100_0000_01b3;

/// One FNV-1a step: xor in the byte, then multiply modulo 2^64.
pub open spec fn fnv_step(h: u64, b: u8) -> u64 {
    (((h ^ (b as u64)) as nat * FNV_PRIME as nat) % 0x1_0000_0000_0000_0000) as u64
}

/// The 64-bit FNV-1a hash of `bytes`.
pub open spec fn fnv1a(bytes: Seq<u8>) -> u64
    decreases bytes.len(),
{
    if bytes.len() == 0 {
        FNV_OFFSET_BASIS
    } else {
        fnv_step(fnv1a(bytes.drop_last()), bytes.last())
    }
}

/// FNV-1a over `bytes`.
pub fn fnv1a_hash(bytes: &[u8]) -> (h: u64)
    ensures
        h == fnv1a(bytes@),
{
    let mut hash: u64 = FNV_OFFSET_BASIS;
    let mut i: usize = 0;
    while i < bytes.len()
        invariant
            i <= bytes@.len(),
            hash == fnv1a(bytes@.subrange(0, i as int)),
        decreases bytes.len() - i,
    {
        let ghost prefix = bytes@.subrange(0, i + 1);
        assert(prefix.drop_last() =~= bytes@.subrange(0, i as int));
        hash = (hash ^ (bytes[i] as u64)).wrapping_mul(FNV_PRIME);
        i = i + 1;
    }
    assert(bytes@.subrange(0, i as int) =~= bytes@);
    hash
}

/// `vault-` followed by the 16 lowercase hex digits of the FNV-1a hash of
/// the canonical path's UTF-8 bytes.
pub open spec fn mapping_name_text(canonical: Seq<char>) -> Seq<char> {
    "vault-"@ + hex_fixed(fnv1a(vstd::utf8::encode_utf8(canonical)) as nat, 16)
}

/// The mapping name of an already canonicalized path.
pub fn mapping_name_of_canonical(canonical: &str) -> (name: String)
    ensures
        name@ == mapping_name_text(canonical@),
{
    let hash = fnv1a_hash(canonical.as_bytes());
    let mut name = String::from_str("vault-");
    push_hex_fixed(&mut name, hash, 16);
    name
}

/// What `mapping_name` returns once the filesystem port answered `c` to
/// canonicalizing `path`.
pub open spec fn name_from_canonical(path: Seq<char>, c: Result<String, String>, r: Result<
    String,
    DomainError,
>) -> bool {
    match c {
        Ok(canonical) => r matches Ok(n) && n@ == mapping_name_text(canonical@),
        Err(reason) => r matches Err(DomainError::AdapterFailure(m)) && m@ == "failed to canonicalize "@
            + path + ": "@ + reason@,
    }
}

/// `r` is what `mapping_name` returns for some answer the port gave to
/// canonicalizing `path`.
pub open spec fn mapping_name_outcome<S: FilesystemBackend>(fs: &S, path: &str, r: Result<
    String,
    DomainError,
>) -> bool {
    exists|c: Result<String, String>|
        #[trigger] call_ensures(S::canonicalize, (fs, path), c) && name_from_canonical(path@, c, r)
}

/// `log` holds, at index `n`, the one call `mapping_name(path)` makes: the
/// canonicalization of `path`, whose answer gives `r`.
pub open spec fn name_call_at(
    log: Seq<PortCall>,
    n: int,
    path: Seq<char>,
    r: Result<String, DomainError>,
) -> bool {
    &&& 0 <= n < log.len()
    &&& log[n] matches PortCall::Canonicalize(p, c)
    &&& p == path
    &&& name_from_canonical(path, c, r)
}

/// Canonicalizes `path` through the filesystem port, then derives its
/// mapping name. A canonicalization failure is reported, never replaced by
/// a name computed from the raw path.
pub fn mapping_name<L: LuksBackend, F: Fido2Backend, S: FilesystemBackend>(
    ports: &mut Ports<'_, L, F, S>,
    path: &str,
) -> (r: Result<String, DomainError>)
    ensures
        final(ports).keeps(*old(ports)),
        extends(old(ports).log(), final(ports).log()),
        r is Ok ==> exists|canonical: Seq<char>| r->Ok_0@ == mapping_name_text(canonical),
        r is Err ==> exists|reason: Seq<char>|
            r == Err::<String, DomainError>(DomainError::AdapterFailure(r->Err_0->AdapterFailure_0))
            && r->Err_0->AdapterFailure_0@ == "failed to canonicalize "@ + path@ + ": "@ + reason,
        mapping_name_outcome(old(ports).fs(), path, r),
        final(ports).log().len() == old(ports).log().len() + 1,
        name_call_at(final(ports).log(), old(ports).log().len() as int, path@, r),
{
    match ports.canonicalize(path) {
        Ok(canonical) => Ok(mapping_name_of_canonical(canonical.as_str())),
        Err(reason) => {
            let mut m = concat("failed to canonicalize ", path);
            m.append(": ");
            m.append(reason.as_str());
            Err(DomainError::AdapterFailure(m))
        },
    }
}

/// The directory whose canonical form stands in for a path that does not
/// exist yet: its parent, or `.` when it has none or only an empty one.
pub open spec fn lock_fallback_dir(path: Seq<char>) -> Seq<char> {
    match parent_text(path) {
        Some(q) => if q.len() > 0 {
            q
        } else {
            "."@
        },
        None => "."@,
    }
}

/// The directory locked in place of a path that cannot be canonicalized.
pub fn fallback_dir(path: &str) -> (r: String)
    ensures
        r@ == lock_fallback_dir(path@),
{
    match parent_dir(path) {
        Some(q) => if q.unicode_len() > 0 {
            q
        } else {
            String::from_str(".")
        },
        None => String::from_str("."),
    }
}

/// The canonical path `lock_target` locks for `path`: the canonical form of
/// `path` itself when it can be canonicalized, else that of its parent
/// directory (a fresh file-backed `create` target does not exist yet). When
/// neither can be canonicalized, the error names `path` and the reason.
pub fn lock_target_path<L: LuksBackend, F: Fido2Backend, S: FilesystemBackend>(
    ports: &mut Ports<'_, L, F, S>,
    path: &str,
) -> (r: Result<String, DomainError>)
    ensures
        final(ports).keeps(*old(ports)),
        extends(old(ports).log(), final(ports).log()),
        r is Err ==> exists|reason: Seq<char>|
            r == Err::<String, DomainError>(DomainError::AdapterFailure(r->Err_0->AdapterFailure_0))
            && r->Err_0->AdapterFailure_0@ == "failed to canonicalize "@ + path@
                + " or its parent directory: "@ + reason,
        exists|c: Result<String, String>|
            #[trigger] call_ensures(S::canonicalize, (old(ports).fs(), path), c) && match c {
                Ok(canonical) => r == Ok::<String, DomainError>(canonical),
                Err(_) => exists|p: &str, d: Result<String, String>|
                    #[trigger] call_ensures(S::canonicalize, (old(ports).fs(), p), d) && p@ == lock_fallback_dir(
                        path@,
                    ) && match d {
                        Ok(canonical) => r == Ok::<String, DomainError>(canonical),
                        Err(reason) => r matches Err(DomainError::AdapterFailure(m)) && m@
                            == "failed to canonicalize "@ + path@ + " or its parent directory: "@
                            + reason@,
                    },
            },
{
    match ports.canonicalize(path) {
        Ok(canonical) => Ok(canonical),
        Err(_) => {
            let parent = fallback_dir(path);
            match ports.canonicalize(parent.as_str()) {
                Ok(canonical) => Ok(canonical),
                Err(reason) => {
                    let mut m = concat("failed to canonicalize ", path);
                    m.append(" or its parent directory: ");
                    m.append(reason.as_str());
                    Err(DomainError::AdapterFailure(m))
                },
            }
        },
    }
}

/// Every mapping name carries the `vault-` prefix and exactly 16 lowercase
/// hex digits, which read back as the FNV-1a hash of the canonical path's
/// UTF-8 bytes; the same canonical path always yields the same name.
pub proof fn law_mapping_name_shape(canonical: Seq<char>, other: Seq<char>)
    ensures
        mapping_name_text(canonical).len() == 22,
        mapping_name_text(canonical).subrange(0, 6) == "vault-"@,
        hex_number(mapping_name_text(canonical).subrange(6, 22)) == fnv1a(
            vstd::utf8::encode_utf8(canonical),
        ),
        forall|i: int|
            6 <= i < 22 ==> ('0' <= #[trigger] mapping_name_text(canonical)[i] <= '9' || 'a'
                <= mapping_name_text(canonical)[i] <= 'f'),
        canonical == other ==> mapping_name_text(canonical) == mapping_name_text(other),
{
    let h = fnv1a(vstd::utf8::encode_utf8(canonical));
    law_hex_fixed_reads_back(h as nat, 16);
    reveal_strlit("vault-");
    let name = mapping_name_text(canonical);
    assert(name.subrange(0, 6) =~= "vault-"@);
    assert(name.subrange(6, 22) =~= hex_fixed(h as nat, 16));
    assert forall|i: int| 6 <= i < 22 implies ('0' <= #[trigger] name[i] <= '9' || 'a' <= name[i]
        <= 'f') by {
        assert(name[i] == hex_fixed(h as nat, 16)[i - 6]);
    }
    assert(vstd::arithmetic::power::pow(16, 16) == 0x1_0000_0000_0000_0000) by {
        reveal_with_fuel(vstd::arithmetic::power::pow, 17);
    }
}

} // verus!
