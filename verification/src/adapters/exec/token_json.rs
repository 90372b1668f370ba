//! Labelling a freshly enrolled key: the label, filesystem, credential id
//! and creation time are written onto its `systemd-fido2` token, inside the
//! LUKS2 header itself.
use vstd::prelude::*;

use crate::adapters::exec::json::{
    field, fields_of, get_member, json_parsed, json_serialized, parse_json, serialize_json, text_of,
    text_value, Json,
};
use crate::adapters::exec::luks_header::{filesystem_name, filesystem_text};
use crate::domain::errors::DomainError;
use crate::domain::types::KeyMetadata;
use crate::text::{concat, decimal, push_decimal};

verus! {

/// The index of the first member named `key`, or -1.
pub open spec fn first_key_index(entries: Seq<(String, Json)>, key: Seq<char>) -> int
    decreases entries.len(),
{
    if entries.len() == 0 {
        -1
    } else if entries[0].0@ == key {
        0
    } else {
        let k = first_key_index(entries.drop_first(), key);
        if k < 0 {
            -1
        } else {
            k + 1
        }
    }
}

/// `out` is `entries` with the member `key` set to the string `text`: the
/// first member of that name gets the new value in place, or a new member
/// is added at the end.
pub open spec fn set_text(
    entries: Seq<(String, Json)>,
    key: Seq<char>,
    text: Seq<char>,
    out: Seq<(String, Json)>,
) -> bool {
    let i = first_key_index(entries, key);
    if i >= 0 {
        &&& out.len() == entries.len()
        &&& forall|j: int| 0 <= j < entries.len() && j != i ==> out[j] == entries[j]
        &&& out[i].0 == entries[i].0
        &&& text_of(Some(out[i].1)) == Some(text)
    } else {
        &&& out.len() == entries.len() + 1
        &&& forall|j: int| 0 <= j < entries.len() ==> out[j] == entries[j]
        &&& out[entries.len() as int].0@ == key
        &&& text_of(Some(out[entries.len() as int].1)) == Some(text)
    }
}

/// `out` is the token's members with `key_label`, `filesystem`,
/// `credential_id` and `created_at` set, in that order.
pub open spec fn labelled(
    token: Seq<(String, Json)>,
    out: Seq<(String, Json)>,
    label: Seq<char>,
    filesystem: Seq<char>,
    credential: Seq<char>,
    created_at: Seq<char>,
) -> bool {
    exists|a: Seq<(String, Json)>, b: Seq<(String, Json)>, c: Seq<(String, Json)>|
        #![trigger set_text(token, "key_label"@, label, a), set_text(a, "filesystem"@, filesystem, b), set_text(b, "credential_id"@, credential, c)]
        set_text(token, "key_label"@, label, a) && set_text(a, "filesystem"@, filesystem, b)
            && set_text(b, "credential_id"@, credential, c) && set_text(
            c,
            "created_at"@,
            created_at,
            out,
        )
}

proof fn lemma_first_key_index(entries: Seq<(String, Json)>, key: Seq<char>, i: int)
    requires
        0 <= i <= entries.len(),
        forall|j: int| 0 <= j < i ==> (#[trigger] entries[j]).0@ != key,
        i < entries.len() ==> entries[i].0@ == key,
    ensures
        first_key_index(entries, key) == if i < entries.len() {
            i
        } else {
            -1
        },
    decreases entries.len(),
{
    if entries.len() > 0 && i > 0 {
        let rest = entries.drop_first();
        assert forall|j: int| 0 <= j < i - 1 implies (#[trigger] rest[j]).0@ != key by {
            assert(rest[j] == entries[j + 1]);
        }
        if i - 1 < rest.len() {
            assert(rest[i - 1] == entries[i]);
        }
        lemma_first_key_index(rest, key, i - 1);
    }
}

/// Sets the member `key` of an object's members to the string `text`.
fn set_text_member(entries: &mut Vec<(String, Json)>, key: &str, text: String)
    ensures
        set_text(old(entries)@, key@, text@, final(entries)@),
{
    let mut i: usize = 0;
    while i < entries.len()
        invariant
            entries@ == old(entries)@,
            i <= entries@.len(),
            forall|j: int| 0 <= j < i ==> (#[trigger] entries@[j]).0@ != key@,
        decreases entries.len() - i,
    {
        if crate::text::text_eq(entries[i].0.as_str(), key) {
            proof {
                lemma_first_key_index(entries@, key@, i as int);
            }
            let name = entries[i].0.clone();
            let ghost before = entries@;
            entries.set(i, (name, Json::Str(text)));
            assert(entries@ == before.update(i as int, (name, Json::Str(text))));
            return;
        }
        i = i + 1;
    }
    proof {
        lemma_first_key_index(entries@, key@, i as int);
    }
    let ghost before = entries@;
    entries.push((String::from_str(key), Json::Str(text)));
    assert(entries@[before.len() as int] == (entries@[before.len() as int].0, Json::Str(text)));
}

/// What labelling the parsed token `doc` gives: a token without a string
/// `fido2-credential` is refused; otherwise the token's members with its
/// label, filesystem, credential id and creation time set, serialized.
pub open spec fn labelled_payload_of(
    doc: Json,
    metadata: KeyMetadata,
    created_at: u64,
    r: Result<Vec<u8>, DomainError>,
) -> bool {
    match text_of(get_member(fields_of(doc), "fido2-credential"@)) {
        None => r matches Err(DomainError::AdapterFailure(m)) && m@
            == "exported token JSON missing expected fido2-credential field"@,
        Some(credential) => exists|members: Vec<(String, Json)>|
            #[trigger] labelled(
                fields_of(doc),
                members@,
                metadata.key_label@,
                filesystem_text(metadata.filesystem),
                credential,
                decimal(created_at as nat),
            ) && (r matches Ok(bytes) && bytes@ == json_serialized(Json::Object(members))),
    }
}

/// Labels an exported token already read into `doc`: its label,
/// filesystem, credential id (copied from `fido2-credential`) and creation
/// time (`created_at`, seconds since the epoch) are set, and the result is
/// serialized. A token without a string `fido2-credential` is refused.
pub fn label_token(doc: Json, metadata: &KeyMetadata, created_at: u64) -> (r: Result<
    Vec<u8>,
    DomainError,
>)
    ensures
        labelled_payload_of(doc, *metadata, created_at, r),
{
    let credential = match text_value(field(&doc, "fido2-credential")) {
        Some(c) => c,
        None => {
            return Err(
                DomainError::AdapterFailure(
                    String::from_str("exported token JSON missing expected fido2-credential field"),
                ),
            );
        },
    };
    let ghost token = fields_of(doc);
    let mut members = match doc {
        Json::Object(members) => members,
        _ => {
            return Err(
                DomainError::AdapterFailure(String::from_str("exported token JSON was not an object")),
            );
        },
    };
    let mut created = String::new();
    push_decimal(&mut created, created_at);
    let ghost a0 = members@;
    set_text_member(&mut members, "key_label", metadata.key_label.clone());
    set_text_member(&mut members, "filesystem", String::from_str(filesystem_name(metadata.filesystem)));
    set_text_member(&mut members, "credential_id", credential);
    set_text_member(&mut members, "created_at", created);
    assert(a0 == token);
    assert(labelled(
        token,
        members@,
        metadata.key_label@,
        filesystem_text(metadata.filesystem),
        text_of(get_member(token, "fido2-credential"@))->Some_0,
        decimal(created_at as nat),
    ));
    let out = Json::Object(members);
    match serialize_json(&out) {
        Ok(bytes) => Ok(bytes),
        Err(e) => Err(
            DomainError::AdapterFailure(concat("failed to serialize updated token JSON: ", e.as_str())),
        ),
    }
}

/// The import payload of a freshly enrolled key's token: the exported
/// token `exported`, read by serde_json, then labelled by `label_token`. A
/// document serde_json cannot read is refused with its error.
pub fn labelled_token_payload(exported: &[u8], metadata: &KeyMetadata, created_at: u64) -> (r: Result<
    Vec<u8>,
    DomainError,
>)
    ensures
        match json_parsed(exported@) {
            Err(e) => r matches Err(DomainError::AdapterFailure(m)) && m@
                == "failed to parse exported token JSON: "@ + e,
            Ok(doc) => labelled_payload_of(doc, *metadata, created_at, r),
        },
{
    match parse_json(exported) {
        Ok(doc) => label_token(doc, metadata, created_at),
        Err(e) => Err(
            DomainError::AdapterFailure(concat("failed to parse exported token JSON: ", e.as_str())),
        ),
    }
}

} // verus!
