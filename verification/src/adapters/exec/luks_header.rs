//! The part of a LUKS2 header's JSON metadata this tool reads (from
//! `cryptsetup luksDump --dump-json-metadata`), held as plain values, and
//! everything decided from it: which keys are valid, which token holds a
//! keyslot, which labels are taken, which token an enrollment created.
use vstd::prelude::*;

use crate::domain::errors::DomainError;
use crate::domain::types::{Filesystem, KeyslotInfo, KeyslotRef};
use crate::text::{debug_quote, debug_quoted, decimal, parse_u64, parsed_u64, push_decimal, text_eq, to_chars};

verus! {

/// One entry of the header's `tokens` object.
#[derive(Debug, Clone, PartialEq, Eq)]
pub struct LuksToken {
    /// The token's key in the `tokens` object.
    pub id: String,
    /// Its `type`, when that is a string.
    pub token_type: Option<String>,
    /// Its `key_label`, when that is a string.
    pub key_label: Option<String>,
    /// Its `keyslots` array (each entry when it is a string), when it has one.
    pub keyslots: Option<Vec<Option<String>>>,
    /// Its `filesystem`, when that is a string.
    pub filesystem: Option<String>,
}

/// The header's `keyslots` object (its keys) and `tokens` object, each in
/// the object's own key order; `None` when the object is missing.
#[derive(Debug, Clone, PartialEq, Eq)]
pub struct LuksHeader {
    pub keyslot_ids: Option<Vec<String>>,
    pub tokens: Option<Vec<LuksToken>>,
}

/// A keyslot number written as text, as `u32::from_str` reads it.
pub open spec fn parsed_u32(s: Seq<char>) -> Option<u32> {
    match parsed_u64(s) {
        Some(n) => if n <= u32::MAX {
            Some(n as u32)
        } else {
            None
        },
        None => None,
    }
}

pub fn parse_u32(s: &str) -> (r: Option<u32>)
    ensures
        r == parsed_u32(s@),
{
    let chars = to_chars(s);
    match parse_u64(chars.as_slice()) {
        Some(n) => if n <= 0xffff_ffff {
            Some(n as u32)
        } else {
            None
        },
        None => None,
    }
}

/// Whether a token is a `systemd-fido2` token.
pub open spec fn is_fido2_token(t: LuksToken) -> bool {
    t.token_type matches Some(ty) && ty@ == "systemd-fido2"@
}

fn fido2_token(t: &LuksToken) -> (r: bool)
    ensures
        r == is_fido2_token(*t),
{
    match &t.token_type {
        Some(ty) => text_eq(ty.as_str(), "systemd-fido2"),
        None => false,
    }
}

/// Whether every id of the `keyslots` object is a keyslot number.
pub open spec fn ids_parse(ids: Seq<String>) -> bool {
    forall|i: int| 0 <= i < ids.len() ==> (#[trigger] parsed_u32(ids[i]@)) is Some
}

/// Whether `ids[k]` is the first id that is not a keyslot number.
pub open spec fn first_bad_id(ids: Seq<String>, k: int) -> bool {
    &&& 0 <= k < ids.len()
    &&& parsed_u32(ids[k]@) is None
    &&& forall|j: int| 0 <= j < k ==> (#[trigger] parsed_u32(ids[j]@)) is Some
}

/// The keyslot numbers the ids name, in order.
pub open spec fn slot_numbers_of(ids: Seq<String>) -> Seq<u32> {
    ids.map_values(|s: String| parsed_u32(s@).unwrap())
}

/// The error naming an id that is not a keyslot number.
pub open spec fn bad_id_message(id: Seq<char>) -> Seq<char> {
    "unrecognized keyslot id "@ + debug_quoted(id) + " in luksDump JSON"@
}

/// The keyslot numbers of the header's `keyslots` object; an id that is not
/// a keyslot number is an error naming it.
pub fn live_keyslot_numbers(header: &LuksHeader) -> (r: Result<Vec<u32>, DomainError>)
    ensures
        header.keyslot_ids is None ==> (r matches Err(DomainError::AdapterFailure(m)) && m@
            == "luksDump JSON missing a keyslots object"@),
        r matches Ok(slots) ==> (header.keyslot_ids matches Some(ids) && slots@.len() == ids@.len()
            && forall|i: int| 0 <= i < ids@.len() ==> parsed_u32((#[trigger] ids@[i])@) == Some(
            slots@[i],
        )),
        r is Err && header.keyslot_ids is Some ==> exists|i: int|
            0 <= i < header.keyslot_ids->Some_0@.len() && parsed_u32(
                (#[trigger] header.keyslot_ids->Some_0@[i])@,
            ) is None,
        header.keyslot_ids is Some && ids_parse(header.keyslot_ids->Some_0@) ==> (r matches Ok(slots)
            && slots@ == slot_numbers_of(header.keyslot_ids->Some_0@)),
        header.keyslot_ids is Some ==> forall|k: int|
            #[trigger] first_bad_id(header.keyslot_ids->Some_0@, k) ==> (r matches Err(
                DomainError::AdapterFailure(m),
            ) && m@ == bad_id_message(header.keyslot_ids->Some_0@[k]@)),
{
    let ids = match &header.keyslot_ids {
        Some(ids) => ids,
        None => {
            return Err(
                DomainError::AdapterFailure(
                    String::from_str("luksDump JSON missing a keyslots object"),
                ),
            );
        },
    };
    let mut slots: Vec<u32> = Vec::new();
    let mut i: usize = 0;
    while i < ids.len()
        invariant
            header.keyslot_ids matches Some(v) && v@ == ids@,
            i <= ids@.len(),
            slots@.len() == i,
            forall|j: int| 0 <= j < i ==> parsed_u32((#[trigger] ids@[j])@) == Some(slots@[j]),
        decreases ids.len() - i,
    {
        match parse_u32(ids[i].as_str()) {
            Some(n) => slots.push(n),
            None => {
                let mut m = String::from_str("unrecognized keyslot id ");
                let q = debug_quote(ids[i].as_str());
                m.append(q.as_str());
                m.append(" in luksDump JSON");
                proof {
                    assert(first_bad_id(ids@, i as int));
                    assert forall|k: int| #[trigger] first_bad_id(ids@, k) implies k == i by {
                        if k < i {
                            assert(parsed_u32(ids@[k]@) == Some(slots@[k]));
                        } else if k > i {
                            assert(parsed_u32(ids@[i as int]@) is Some);
                        }
                    }
                }
                return Err(DomainError::AdapterFailure(m));
            },
        }
        i = i + 1;
    }
    proof {
        assert forall|k: int| 0 <= k < ids@.len() implies !first_bad_id(ids@, k) by {
            assert(parsed_u32(ids@[k]@) == Some(slots@[k]));
        }
        assert(slots@ =~= slot_numbers_of(ids@)) by {
            assert forall|k: int| 0 <= k < ids@.len() implies slots@[k] == slot_numbers_of(ids@)[k] by {
                assert(parsed_u32(ids@[k]@) == Some(slots@[k]));
            }
        }
    }
    Ok(slots)
}

/// The label a valid key is listed with: its token's `key_label`, or empty.
pub open spec fn label_of(t: LuksToken) -> Seq<char> {
    match t.key_label {
        Some(l) => l@,
        None => seq![],
    }
}

/// Whether the `(keyslot, label)` list `keys` has keyslot `slot`.
pub open spec fn has_slot(keys: Seq<(u32, Seq<char>)>, slot: u32) -> bool {
    exists|i: int| 0 <= i < keys.len() && (#[trigger] keys[i]).0 == slot
}

/// Walks one token's `keyslots` entries in order, adding each that names
/// a keyslot which exists (is in `live`) and is not yet in `keys`, with the
/// token's label. Entries that are not keyslot numbers are passed over.
pub open spec fn add_token_slots(
    keys: Seq<(u32, Seq<char>)>,
    slots: Seq<Option<String>>,
    live: Seq<u32>,
    label: Seq<char>,
) -> Seq<(u32, Seq<char>)>
    decreases slots.len(),
{
    if slots.len() == 0 {
        keys
    } else {
        let before = add_token_slots(keys, slots.drop_last(), live, label);
        match slots.last() {
            Some(s) => match parsed_u32(s@) {
                Some(n) => if live.contains(n) && !has_slot(before, n) {
                    before.push((n, label))
                } else {
                    before
                },
                None => before,
            },
            None => before,
        }
    }
}

/// The valid keys of a header, in token order then keyslot order: each
/// keyslot that a `systemd-fido2` token references and that still exists,
/// counted once, with that token's label. A token pointing at a keyslot
/// that is gone never counts.
pub open spec fn valid_keys(tokens: Seq<LuksToken>, live: Seq<u32>) -> Seq<(u32, Seq<char>)>
    decreases tokens.len(),
{
    if tokens.len() == 0 {
        seq![]
    } else {
        let before = valid_keys(tokens.drop_last(), live);
        let t = tokens.last();
        if is_fido2_token(t) && t.keyslots is Some {
            add_token_slots(before, t.keyslots->Some_0@, live, label_of(t))
        } else {
            before
        }
    }
}

/// The `(keyslot, label)` view of listed keys.
pub open spec fn key_views(keys: Seq<KeyslotInfo>) -> Seq<(u32, Seq<char>)> {
    keys.map_values(|k: KeyslotInfo| (k.keyslot.0, k.key_label@))
}

fn contains_u32(v: &Vec<u32>, n: u32) -> (r: bool)
    ensures
        r == v@.contains(n),
{
    let mut i: usize = 0;
    while i < v.len()
        invariant
            i <= v@.len(),
            forall|j: int| 0 <= j < i ==> v@[j] != n,
        decreases v.len() - i,
    {
        if v[i] == n {
            assert(v@[i as int] == n);
            return true;
        }
        i = i + 1;
    }
    false
}

fn already_listed(keys: &Vec<KeyslotInfo>, n: u32) -> (r: bool)
    ensures
        r == has_slot(key_views(keys@), n),
{
    let mut i: usize = 0;
    while i < keys.len()
        invariant
            i <= keys@.len(),
            forall|j: int| 0 <= j < i ==> (#[trigger] keys@[j]).keyslot.0 != n,
        decreases keys.len() - i,
    {
        if keys[i].keyslot.0 == n {
            assert(key_views(keys@)[i as int].0 == n);
            return true;
        }
        i = i + 1;
    }
    assert forall|j: int| 0 <= j < key_views(keys@).len() implies (#[trigger] key_views(keys@)[j]).0
        != n by {
        assert(key_views(keys@)[j].0 == keys@[j].keyslot.0);
    }
    false
}

fn label_text(t: &LuksToken) -> (r: String)
    ensures
        r@ == label_of(*t),
{
    match &t.key_label {
        Some(l) => l.clone(),
        None => String::new(),
    }
}

fn add_slots_of_token(keys: &mut Vec<KeyslotInfo>, t: &LuksToken, slots: &Vec<Option<String>>, live: &Vec<u32>)
    ensures
        key_views(final(keys)@) == add_token_slots(key_views(old(keys)@), slots@, live@, label_of(*t)),
{
    let ghost start = key_views(keys@);
    let mut j: usize = 0;
    while j < slots.len()
        invariant
            j <= slots@.len(),
            key_views(keys@) == add_token_slots(start, slots@.subrange(0, j as int), live@, label_of(*t)),
        decreases slots.len() - j,
    {
        let ghost pre = slots@.subrange(0, j as int);
        assert(slots@.subrange(0, j + 1).drop_last() =~= pre);
        assert(slots@.subrange(0, j + 1).last() == slots@[j as int]);
        if let Some(s) = &slots[j] {
            if let Some(n) = parse_u32(s.as_str()) {
                if contains_u32(live, n) && !already_listed(keys, n) {
                    let label = label_text(t);
                    let ghost old_views = key_views(keys@);
                    keys.push(KeyslotInfo { keyslot: KeyslotRef(n), key_label: label });
                    assert(key_views(keys@) =~= old_views.push((n, label_of(*t))));
                }
            }
        }
        j = j + 1;
    }
    assert(slots@.subrange(0, j as int) =~= slots@);
}

/// The valid keys of the header: its `tokens` object is read first, then
/// its `keyslots` object; a missing object, or a keyslot id that is not a
/// number, is an error.
pub fn fido2_keyslots(header: &LuksHeader) -> (r: Result<Vec<KeyslotInfo>, DomainError>)
    ensures
        header.tokens is None ==> (r matches Err(DomainError::AdapterFailure(m)) && m@
            == "luksDump JSON missing a tokens object"@),
        r matches Ok(keys) ==> (header.tokens matches Some(tokens) && header.keyslot_ids is Some
            && exists|live: Seq<u32>| live.len() == header.keyslot_ids->Some_0@.len() && (forall|i: int|
            0 <= i < live.len() ==> parsed_u32((#[trigger] header.keyslot_ids->Some_0@[i])@) == Some(live[i]))
            && key_views(keys@) == valid_keys(tokens@, live)),
        header.tokens is Some && header.keyslot_ids is None ==> (r matches Err(
            DomainError::AdapterFailure(m),
        ) && m@ == "luksDump JSON missing a keyslots object"@),
        header.tokens is Some && header.keyslot_ids is Some ==> forall|k: int|
            #[trigger] first_bad_id(header.keyslot_ids->Some_0@, k) ==> (r matches Err(
                DomainError::AdapterFailure(m),
            ) && m@ == bad_id_message(header.keyslot_ids->Some_0@[k]@)),
        header.tokens is Some && header.keyslot_ids is Some && ids_parse(header.keyslot_ids->Some_0@)
            ==> (r matches Ok(keys) && key_views(keys@) == valid_keys(
            header.tokens->Some_0@,
            slot_numbers_of(header.keyslot_ids->Some_0@),
        )),
{
    let tokens = match &header.tokens {
        Some(tokens) => tokens,
        None => {
            return Err(
                DomainError::AdapterFailure(String::from_str("luksDump JSON missing a tokens object")),
            );
        },
    };
    let live = live_keyslot_numbers(header)?;
    let mut keys: Vec<KeyslotInfo> = Vec::new();
    let mut i: usize = 0;
    while i < tokens.len()
        invariant
            i <= tokens@.len(),
            key_views(keys@) == valid_keys(tokens@.subrange(0, i as int), live@),
        decreases tokens.len() - i,
    {
        let ghost pre = tokens@.subrange(0, i as int);
        assert(tokens@.subrange(0, i + 1).drop_last() =~= pre);
        assert(tokens@.subrange(0, i + 1).last() == tokens@[i as int]);
        let t = &tokens[i];
        if fido2_token(t) {
            if let Some(slots) = &t.keyslots {
                add_slots_of_token(&mut keys, t, slots, &live);
            }
        }
        i = i + 1;
    }
    assert(tokens@.subrange(0, i as int) =~= tokens@);
    Ok(keys)
}

proof fn lemma_add_token_slots(
    keys: Seq<(u32, Seq<char>)>,
    slots: Seq<Option<String>>,
    live: Seq<u32>,
    label: Seq<char>,
)
    requires
        forall|i: int| 0 <= i < keys.len() ==> live.contains(#[trigger] keys[i].0),
        forall|i: int, j: int| 0 <= i < j < keys.len() ==> (#[trigger] keys[i]).0 != (#[trigger] keys[j]).0,
    ensures
        forall|i: int| 0 <= i < add_token_slots(keys, slots, live, label).len() ==> live.contains(
            #[trigger] add_token_slots(keys, slots, live, label)[i].0,
        ),
        forall|i: int, j: int| 0 <= i < j < add_token_slots(keys, slots, live, label).len() ==> (
        #[trigger] add_token_slots(keys, slots, live, label)[i]).0 != (
        #[trigger] add_token_slots(keys, slots, live, label)[j]).0,
        keys.len() <= add_token_slots(keys, slots, live, label).len(),
        forall|i: int| 0 <= i < keys.len() ==> add_token_slots(keys, slots, live, label)[i] == keys[i],
    decreases slots.len(),
{
    if slots.len() > 0 {
        lemma_add_token_slots(keys, slots.drop_last(), live, label);
        let before = add_token_slots(keys, slots.drop_last(), live, label);
        let after = add_token_slots(keys, slots, live, label);
        if after.len() > before.len() {
            let n = after.last().0;
            assert(!has_slot(before, n));
            assert forall|i: int, j: int| 0 <= i < j < after.len() implies (#[trigger] after[i]).0
                != (#[trigger] after[j]).0 by {
                if j == after.len() - 1 {
                    assert(after[i] == before[i]);
                    if before[i].0 == n {
                        assert(has_slot(before, n));
                    }
                } else {
                    assert(after[i] == before[i]);
                    assert(after[j] == before[j]);
                }
            }
            assert forall|i: int| 0 <= i < after.len() implies live.contains(#[trigger] after[i].0) by {
                if i < before.len() {
                    assert(after[i] == before[i]);
                }
            }
        }
    }
}

/// A valid key is a keyslot that exists in the header, and no keyslot is
/// ever counted twice: a token pointing at a removed keyslot adds nothing,
/// and two tokens sharing a keyslot count it once.
pub proof fn law_valid_keys_exist_and_are_distinct(tokens: Seq<LuksToken>, live: Seq<u32>)
    ensures
        forall|i: int| 0 <= i < valid_keys(tokens, live).len() ==> live.contains(
            #[trigger] valid_keys(tokens, live)[i].0,
        ),
        forall|i: int, j: int| 0 <= i < j < valid_keys(tokens, live).len() ==> (
        #[trigger] valid_keys(tokens, live)[i]).0 != (#[trigger] valid_keys(tokens, live)[j]).0,
    decreases tokens.len(),
{
    if tokens.len() > 0 {
        law_valid_keys_exist_and_are_distinct(tokens.drop_last(), live);
        let before = valid_keys(tokens.drop_last(), live);
        let t = tokens.last();
        if is_fido2_token(t) && t.keyslots is Some {
            lemma_add_token_slots(before, t.keyslots->Some_0@, live, label_of(t));
        }
    }
}

/// Whether a token's `keyslots` array names keyslot `slot` (as its decimal
/// text).
pub open spec fn references_slot(t: LuksToken, slot: u32) -> bool {
    t.keyslots matches Some(v) && exists|j: int|
        0 <= j < v@.len() && ((#[trigger] v@[j]) matches Some(s) && s@ == decimal(slot as nat))
}

fn token_references(t: &LuksToken, slot_text: &str, slot: u32) -> (r: bool)
    requires
        slot_text@ == decimal(slot as nat),
    ensures
        r == references_slot(*t, slot),
{
    match &t.keyslots {
        None => false,
        Some(v) => {
            let mut j: usize = 0;
            while j < v.len()
                invariant
                    j <= v@.len(),
                    t.keyslots matches Some(w) && w@ == v@,
                    slot_text@ == decimal(slot as nat),
                    forall|k: int| 0 <= k < j ==> !(((#[trigger] v@[k]) matches Some(s) && s@ == slot_text@)),
                decreases v.len() - j,
            {
                if let Some(s) = &v[j] {
                    if text_eq(s.as_str(), slot_text) {
                        assert(v@[j as int] matches Some(x) && x@ == decimal(slot as nat));
                        return true;
                    }
                }
                j = j + 1;
            }
            false
        },
    }
}

/// The id of the first token (in object order) that references keyslot
/// `slot`, if any; a missing `tokens` object is an error.
pub fn token_for_keyslot(header: &LuksHeader, slot: u32) -> (r: Result<Option<String>, DomainError>)
    ensures
        header.tokens is None ==> (r matches Err(DomainError::AdapterFailure(m)) && m@
            == "luksDump JSON missing a tokens object"@),
        header.tokens matches Some(tokens) ==> r is Ok && (match r->Ok_0 {
            None => forall|i: int| 0 <= i < tokens@.len() ==> !references_slot(#[trigger] tokens@[i], slot),
            Some(id) => exists|i: int|
                0 <= i < tokens@.len() && references_slot(#[trigger] tokens@[i], slot) && tokens@[i].id@
                    == id@ && forall|k: int| 0 <= k < i ==> !references_slot(#[trigger] tokens@[k], slot),
        }),
{
    let tokens = match &header.tokens {
        Some(tokens) => tokens,
        None => {
            return Err(
                DomainError::AdapterFailure(String::from_str("luksDump JSON missing a tokens object")),
            );
        },
    };
    let mut slot_text = String::new();
    push_decimal(&mut slot_text, slot as u64);
    let mut i: usize = 0;
    while i < tokens.len()
        invariant
            i <= tokens@.len(),
            header.tokens matches Some(v) && v@ == tokens@,
            slot_text@ == decimal(slot as nat),
            forall|k: int| 0 <= k < i ==> !references_slot(#[trigger] tokens@[k], slot),
        decreases tokens.len() - i,
    {
        if token_references(&tokens[i], slot_text.as_str(), slot) {
            return Ok(Some(tokens[i].id.clone()));
        }
        i = i + 1;
    }
    Ok(None)
}

/// The ids of the `systemd-fido2` tokens, in order.
pub open spec fn fido2_token_ids(tokens: Seq<LuksToken>) -> Seq<Seq<char>>
    decreases tokens.len(),
{
    if tokens.len() == 0 {
        seq![]
    } else {
        let before = fido2_token_ids(tokens.drop_last());
        if is_fido2_token(tokens.last()) {
            before.push(tokens.last().id@)
        } else {
            before
        }
    }
}

/// The ids of every `systemd-fido2` token; a missing `tokens` object is an
/// error.
pub fn systemd_fido2_token_ids(header: &LuksHeader) -> (r: Result<Vec<String>, DomainError>)
    ensures
        header.tokens is None ==> (r matches Err(DomainError::AdapterFailure(m)) && m@
            == "luksDump JSON missing a tokens object"@),
        header.tokens matches Some(tokens) ==> (r matches Ok(ids) && ids@.map_values(|s: String| s@)
            == fido2_token_ids(tokens@)),
{
    let tokens = match &header.tokens {
        Some(tokens) => tokens,
        None => {
            return Err(
                DomainError::AdapterFailure(String::from_str("luksDump JSON missing a tokens object")),
            );
        },
    };
    let mut ids: Vec<String> = Vec::new();
    let mut i: usize = 0;
    while i < tokens.len()
        invariant
            i <= tokens@.len(),
            ids@.map_values(|s: String| s@) == fido2_token_ids(tokens@.subrange(0, i as int)),
        decreases tokens.len() - i,
    {
        let ghost pre = tokens@.subrange(0, i as int);
        assert(tokens@.subrange(0, i + 1).drop_last() =~= pre);
        assert(tokens@.subrange(0, i + 1).last() == tokens@[i as int]);
        if fido2_token(&tokens[i]) {
            let ghost before = ids@.map_values(|s: String| s@);
            ids.push(tokens[i].id.clone());
            assert(ids@.map_values(|s: String| s@) =~= before.push(tokens@[i as int].id@));
        }
        i = i + 1;
    }
    assert(tokens@.subrange(0, i as int) =~= tokens@);
    Ok(ids)
}

/// The labels already carried by `systemd-fido2` tokens, in order.
pub open spec fn fido2_labels(tokens: Seq<LuksToken>) -> Seq<Seq<char>>
    decreases tokens.len(),
{
    if tokens.len() == 0 {
        seq![]
    } else {
        let before = fido2_labels(tokens.drop_last());
        let t = tokens.last();
        if is_fido2_token(t) && t.key_label is Some {
            before.push(t.key_label->Some_0@)
        } else {
            before
        }
    }
}

/// The labels of the enrolled keys; a missing `tokens` object is an error.
pub fn existing_key_labels(header: &LuksHeader) -> (r: Result<Vec<String>, DomainError>)
    ensures
        header.tokens is None ==> (r matches Err(DomainError::AdapterFailure(m)) && m@
            == "luksDump JSON missing a tokens object"@),
        header.tokens matches Some(tokens) ==> (r matches Ok(labels) && labels@.map_values(
            |s: String| s@,
        ) == fido2_labels(tokens@)),
{
    let tokens = match &header.tokens {
        Some(tokens) => tokens,
        None => {
            return Err(
                DomainError::AdapterFailure(String::from_str("luksDump JSON missing a tokens object")),
            );
        },
    };
    let mut labels: Vec<String> = Vec::new();
    let mut i: usize = 0;
    while i < tokens.len()
        invariant
            i <= tokens@.len(),
            labels@.map_values(|s: String| s@) == fido2_labels(tokens@.subrange(0, i as int)),
        decreases tokens.len() - i,
    {
        let ghost pre = tokens@.subrange(0, i as int);
        assert(tokens@.subrange(0, i + 1).drop_last() =~= pre);
        assert(tokens@.subrange(0, i + 1).last() == tokens@[i as int]);
        if fido2_token(&tokens[i]) {
            if let Some(l) = &tokens[i].key_label {
                let ghost before = labels@.map_values(|s: String| s@);
                labels.push(l.clone());
                assert(labels@.map_values(|s: String| s@) =~= before.push(l@));
            }
        }
        i = i + 1;
    }
    assert(tokens@.subrange(0, i as int) =~= tokens@);
    Ok(labels)
}

/// Whether `label` is among `labels`.
pub fn label_taken(labels: &Vec<String>, label: &str) -> (r: bool)
    ensures
        r <==> exists|i: int| 0 <= i < labels@.len() && (#[trigger] labels@[i])@ == label@,
{
    let mut i: usize = 0;
    while i < labels.len()
        invariant
            i <= labels@.len(),
            forall|j: int| 0 <= j < i ==> (#[trigger] labels@[j])@ != label@,
        decreases labels.len() - i,
    {
        if text_eq(labels[i].as_str(), label) {
            return true;
        }
        i = i + 1;
    }
    false
}

/// The refusal of a label another enrolled key already carries.
pub fn label_collision(label: &str) -> (e: DomainError)
    ensures
        e matches DomainError::AdapterFailure(m) && m@ == "a key labeled "@ + debug_quoted(label@)
            + " is already enrolled on this volume — choose a different label"@,
{
    let mut m = String::from_str("a key labeled ");
    let q = debug_quote(label);
    m.append(q.as_str());
    m.append(" is already enrolled on this volume — choose a different label");
    DomainError::AdapterFailure(m)
}

/// The keyslot numbers among `entries`, in order, passing over entries
/// that are not keyslot numbers.
pub open spec fn slot_numbers(entries: Seq<Option<String>>) -> Seq<u32>
    decreases entries.len(),
{
    if entries.len() == 0 {
        seq![]
    } else {
        let before = slot_numbers(entries.drop_last());
        match entries.last() {
            Some(s) => match parsed_u32(s@) {
                Some(n) => before.push(n),
                None => before,
            },
            None => before,
        }
    }
}

/// The keyslot numbers a token's `keyslots` array names (none without one).
pub open spec fn token_slots(t: LuksToken) -> Seq<u32> {
    match t.keyslots {
        Some(v) => slot_numbers(v@),
        None => seq![],
    }
}

fn slots_of_token(t: &LuksToken) -> (r: Vec<u32>)
    ensures
        r@ == token_slots(*t),
{
    let mut slots: Vec<u32> = Vec::new();
    if let Some(v) = &t.keyslots {
        let mut j: usize = 0;
        while j < v.len()
            invariant
                j <= v@.len(),
                slots@ == slot_numbers(v@.subrange(0, j as int)),
            decreases v.len() - j,
        {
            let ghost pre = v@.subrange(0, j as int);
            assert(v@.subrange(0, j + 1).drop_last() =~= pre);
            assert(v@.subrange(0, j + 1).last() == v@[j as int]);
            if let Some(s) = &v[j] {
                if let Some(n) = parse_u32(s.as_str()) {
                    slots.push(n);
                }
            }
            j = j + 1;
        }
        assert(v@.subrange(0, j as int) =~= v@);
    }
    slots
}

/// The keyslots the first token with id `token_id` references; none when
/// there is no `tokens` object or no such token.
pub fn keyslots_for_token(header: &LuksHeader, token_id: &str) -> (r: Vec<u32>)
    ensures
        header.tokens is None ==> r@.len() == 0,
        header.tokens matches Some(tokens) ==> ((forall|i: int|
            0 <= i < tokens@.len() ==> (#[trigger] tokens@[i]).id@ != token_id@) ==> r@.len() == 0),
        header.tokens matches Some(tokens) ==> (forall|i: int|
            0 <= i < tokens@.len() && (#[trigger] tokens@[i]).id@ == token_id@ && (forall|k: int|
                0 <= k < i ==> (#[trigger] tokens@[k]).id@ != token_id@) ==> r@ == token_slots(
                tokens@[i],
            )),
{
    if let Some(tokens) = &header.tokens {
        let mut i: usize = 0;
        while i < tokens.len()
            invariant
                i <= tokens@.len(),
                header.tokens matches Some(v) && v@ == tokens@,
                forall|k: int| 0 <= k < i ==> (#[trigger] tokens@[k]).id@ != token_id@,
            decreases tokens.len() - i,
        {
            if text_eq(tokens[i].id.as_str(), token_id) {
                let slots = slots_of_token(&tokens[i]);
                assert forall|m: int|
                    0 <= m < tokens@.len() && (#[trigger] tokens@[m]).id@ == token_id@ && (forall|k: int|
                        0 <= k < m ==> (#[trigger] tokens@[k]).id@ != token_id@) implies slots@
                    == token_slots(tokens@[m]) by {
                    if m < i {
                    } else if m > i {
                        assert(tokens@[i as int].id@ == token_id@);
                    }
                }
                return slots;
            }
            i = i + 1;
        }
    }
    Vec::new()
}

/// The ids in `after` that `before` lacks, each once, in order.
pub open spec fn fresh_ids(before: Seq<Seq<char>>, after: Seq<Seq<char>>) -> Seq<Seq<char>>
    decreases after.len(),
{
    if after.len() == 0 {
        seq![]
    } else {
        let earlier = fresh_ids(before, after.drop_last());
        let id = after.last();
        if before.contains(id) || earlier.contains(id) {
            earlier
        } else {
            earlier.push(id)
        }
    }
}

fn seq_has(v: &Vec<String>, s: &str) -> (r: bool)
    ensures
        r == v@.map_values(|x: String| x@).contains(s@),
{
    let mut i: usize = 0;
    while i < v.len()
        invariant
            i <= v@.len(),
            forall|j: int| 0 <= j < i ==> (#[trigger] v@[j])@ != s@,
        decreases v.len() - i,
    {
        if text_eq(v[i].as_str(), s) {
            assert(v@.map_values(|x: String| x@)[i as int] == s@);
            return true;
        }
        i = i + 1;
    }
    let ghost m = v@.map_values(|x: String| x@);
    assert forall|j: int| 0 <= j < m.len() implies #[trigger] m[j] != s@ by {
        assert(m[j] == v@[j]@);
    }
    false
}

/// The one token an enrollment created: the only `systemd-fido2` token id
/// present after it and not before. Any other count is an error.
pub fn new_token_id(before: &Vec<String>, after: &Vec<String>) -> (r: Result<String, DomainError>)
    ensures
        fresh_ids(before@.map_values(|x: String| x@), after@.map_values(|x: String| x@)).len() == 1
            ==> (r matches Ok(id) && id@ == fresh_ids(
            before@.map_values(|x: String| x@),
            after@.map_values(|x: String| x@),
        )[0]),
        fresh_ids(before@.map_values(|x: String| x@), after@.map_values(|x: String| x@)).len() != 1
            ==> (r matches Err(DomainError::AdapterFailure(m)) && m@
            == "expected exactly one new systemd-fido2 token after enrollment, found "@ + decimal(
            fresh_ids(before@.map_values(|x: String| x@), after@.map_values(|x: String| x@)).len(),
        )),
{
    let ghost b = before@.map_values(|x: String| x@);
    let ghost a = after@.map_values(|x: String| x@);
    let mut fresh: Vec<String> = Vec::new();
    let mut i: usize = 0;
    while i < after.len()
        invariant
            i <= after@.len(),
            b == before@.map_values(|x: String| x@),
            a == after@.map_values(|x: String| x@),
            fresh@.map_values(|x: String| x@) == fresh_ids(b, a.subrange(0, i as int)),
        decreases after.len() - i,
    {
        let ghost pre = a.subrange(0, i as int);
        assert(a.subrange(0, i + 1).drop_last() =~= pre);
        assert(a.subrange(0, i + 1).last() == after@[i as int]@);
        let id = after[i].as_str();
        if !seq_has(before, id) && !seq_has(&fresh, id) {
            let ghost prev = fresh@.map_values(|x: String| x@);
            fresh.push(after[i].clone());
            assert(fresh@.map_values(|x: String| x@) =~= prev.push(after@[i as int]@));
        }
        i = i + 1;
    }
    assert(a.subrange(0, i as int) =~= a);
    if fresh.len() == 1 {
        assert(fresh@.map_values(|x: String| x@)[0] == fresh@[0]@);
        Ok(fresh[0].clone())
    } else {
        let mut m = String::from_str("expected exactly one new systemd-fido2 token after enrollment, found ");
        push_decimal(&mut m, fresh.len() as u64);
        Err(DomainError::AdapterFailure(m))
    }
}

/// The token type of the marker an interrupted `create` leaves on a header
/// until provisioning completes.
pub const MARKER_TOKEN_TYPE: &'static str = "hypogaol-create-marker";

/// Whether a token is the interrupted-create marker.
pub open spec fn is_marker_token(t: LuksToken) -> bool {
    t.token_type matches Some(ty) && ty@ == MARKER_TOKEN_TYPE@
}

/// The ids of the marker tokens, in order.
pub open spec fn marker_ids(tokens: Seq<LuksToken>) -> Seq<Seq<char>>
    decreases tokens.len(),
{
    if tokens.len() == 0 {
        seq![]
    } else {
        let before = marker_ids(tokens.drop_last());
        if is_marker_token(tokens.last()) {
            before.push(tokens.last().id@)
        } else {
            before
        }
    }
}

/// The ids of the marker tokens on a header; a missing `tokens` object is
/// an error.
pub fn marker_token_ids(header: &LuksHeader) -> (r: Result<Vec<String>, DomainError>)
    ensures
        header.tokens is None ==> (r matches Err(DomainError::AdapterFailure(m)) && m@
            == "luksDump JSON missing a tokens object"@),
        header.tokens matches Some(tokens) ==> (r matches Ok(ids) && ids@.map_values(|s: String| s@)
            == marker_ids(tokens@)),
{
    let tokens = match &header.tokens {
        Some(tokens) => tokens,
        None => {
            return Err(
                DomainError::AdapterFailure(String::from_str("luksDump JSON missing a tokens object")),
            );
        },
    };
    let mut ids: Vec<String> = Vec::new();
    let mut i: usize = 0;
    while i < tokens.len()
        invariant
            i <= tokens@.len(),
            ids@.map_values(|s: String| s@) == marker_ids(tokens@.subrange(0, i as int)),
        decreases tokens.len() - i,
    {
        let ghost pre = tokens@.subrange(0, i as int);
        assert(tokens@.subrange(0, i + 1).drop_last() =~= pre);
        assert(tokens@.subrange(0, i + 1).last() == tokens@[i as int]);
        let is_marker = match &tokens[i].token_type {
            Some(ty) => text_eq(ty.as_str(), MARKER_TOKEN_TYPE),
            None => false,
        };
        if is_marker {
            let ghost before = ids@.map_values(|s: String| s@);
            ids.push(tokens[i].id.clone());
            assert(ids@.map_values(|s: String| s@) =~= before.push(tokens@[i as int].id@));
        }
        i = i + 1;
    }
    assert(tokens@.subrange(0, i as int) =~= tokens@);
    Ok(ids)
}

/// The name a filesystem is recorded under on a key's token.
pub open spec fn filesystem_text(fs: Filesystem) -> Seq<char> {
    match fs {
        Filesystem::Ext4 => "ext4"@,
        Filesystem::Xfs => "xfs"@,
        Filesystem::Btrfs => "btrfs"@,
    }
}

pub fn filesystem_name(fs: Filesystem) -> (r: &'static str)
    ensures
        r@ == filesystem_text(fs),
{
    match fs {
        Filesystem::Ext4 => "ext4",
        Filesystem::Xfs => "xfs",
        Filesystem::Btrfs => "btrfs",
    }
}

proof fn lemma_first_fido2_unique(tokens: Seq<LuksToken>, i: int)
    requires
        first_fido2(tokens, i),
    ensures
        forall|k: int| #[trigger] first_fido2(tokens, k) ==> k == i,
{
    assert forall|k: int| #[trigger] first_fido2(tokens, k) implies k == i by {
        if k < i {
            assert(!is_fido2_token(tokens[k]));
        } else if k > i {
            assert(!is_fido2_token(tokens[i]));
        }
    }
}

/// Whether `tokens[k]` is the first `systemd-fido2` token.
pub open spec fn first_fido2(tokens: Seq<LuksToken>, k: int) -> bool {
    &&& 0 <= k < tokens.len()
    &&& is_fido2_token(tokens[k])
    &&& forall|j: int| 0 <= j < k ==> !is_fido2_token(#[trigger] tokens[j])
}

/// The filesystem a recorded name stands for, when this tool knows it.
pub open spec fn known_filesystem(name: Seq<char>) -> Option<Filesystem> {
    if name == "ext4"@ {
        Some(Filesystem::Ext4)
    } else if name == "xfs"@ {
        Some(Filesystem::Xfs)
    } else if name == "btrfs"@ {
        Some(Filesystem::Btrfs)
    } else {
        None
    }
}

/// A filesystem's recorded name reads back as that filesystem, and the
/// only names that read as a filesystem are the three recorded ones.
pub proof fn law_filesystem_names_round_trip(fs: Filesystem, name: Seq<char>)
    ensures
        known_filesystem(filesystem_text(fs)) == Some(fs),
        known_filesystem(name) matches Some(f) ==> name == filesystem_text(f),
{
    reveal_strlit("ext4");
    reveal_strlit("xfs");
    reveal_strlit("btrfs");
    assert("ext4"@.len() == 4 && "xfs"@.len() == 3 && "btrfs"@.len() == 5);
}

/// The filesystem the first `systemd-fido2` token records: an error when
/// there is no such token, it records none, or names a filesystem this
/// tool does not know.
pub fn recorded_filesystem(header: &LuksHeader, path: &str) -> (r: Result<Filesystem, DomainError>)
    ensures
        header.tokens is None ==> (r matches Err(DomainError::AdapterFailure(m)) && m@
            == "luksDump JSON missing a tokens object"@),
        r matches Ok(fs) ==> (header.tokens matches Some(tokens) && exists|k: int|
            0 <= k < tokens@.len() && is_fido2_token(#[trigger] tokens@[k]) && (forall|j: int|
                0 <= j < k ==> !is_fido2_token(#[trigger] tokens@[j])) && (tokens@[k].filesystem
                matches Some(name) && name@ == filesystem_text(fs))),
        header.tokens is Some && (forall|k: int| !first_fido2(header.tokens->Some_0@, k)) ==> (r matches Err(
            DomainError::AdapterFailure(m),
        ) && m@ == path@ + " has no systemd-fido2 token with a filesystem field"@),
        header.tokens matches Some(tokens) ==> forall|k: int|
            #[trigger] first_fido2(tokens@, k) ==> match tokens@[k].filesystem {
                None => r matches Err(DomainError::AdapterFailure(m)) && m@ == path@
                    + " has no systemd-fido2 token with a filesystem field"@,
                Some(name) => match known_filesystem(name@) {
                    Some(fs) => r == Ok::<Filesystem, DomainError>(fs),
                    None => r matches Err(DomainError::AdapterFailure(m)) && m@
                        == "unrecognized filesystem "@ + debug_quoted(name@) + " recorded on "@
                        + path@ + "'s systemd-fido2 token"@,
                },
            },
{
    let tokens = match &header.tokens {
        Some(tokens) => tokens,
        None => {
            return Err(
                DomainError::AdapterFailure(String::from_str("luksDump JSON missing a tokens object")),
            );
        },
    };
    let mut i: usize = 0;
    while i < tokens.len()
        invariant
            i <= tokens@.len(),
            header.tokens matches Some(v) && v@ == tokens@,
            forall|j: int| 0 <= j < i ==> !is_fido2_token(#[trigger] tokens@[j]),
        decreases tokens.len() - i,
    {
        if fido2_token(&tokens[i]) {
            if let Some(name) = &tokens[i].filesystem {
                proof {
                    lemma_first_fido2_unique(tokens@, i as int);
                    assert(first_fido2(header.tokens->Some_0@, i as int));
                }
                if text_eq(name.as_str(), "ext4") {
                    return Ok(Filesystem::Ext4);
                }
                if text_eq(name.as_str(), "xfs") {
                    return Ok(Filesystem::Xfs);
                }
                if text_eq(name.as_str(), "btrfs") {
                    return Ok(Filesystem::Btrfs);
                }
                let mut m = String::from_str("unrecognized filesystem ");
                let q = debug_quote(name.as_str());
                m.append(q.as_str());
                m.append(" recorded on ");
                m.append(path);
                m.append("'s systemd-fido2 token");
                proof {
                    lemma_first_fido2_unique(tokens@, i as int);
                    assert(first_fido2(header.tokens->Some_0@, i as int));
                }
                return Err(DomainError::AdapterFailure(m));
            }
            let mut m = String::from_str(path);
            m.append(" has no systemd-fido2 token with a filesystem field");
            proof {
                    lemma_first_fido2_unique(tokens@, i as int);
                    assert(first_fido2(header.tokens->Some_0@, i as int));
                }
            return Err(DomainError::AdapterFailure(m));
        }
        i = i + 1;
    }
    let mut m = String::from_str(path);
    m.append(" has no systemd-fido2 token with a filesystem field");
    Err(DomainError::AdapterFailure(m))
}

} // verus!
