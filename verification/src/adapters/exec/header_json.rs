//! Reading a LUKS2 header's JSON metadata (`cryptsetup luksDump
//! --dump-json-metadata`) into the plain header model.
use vstd::prelude::*;

use crate::adapters::exec::json::{
    field, fields_of, get_member, json_parsed, parse_json, text_of, text_value, Json,
};
use crate::adapters::exec::luks_header::{LuksHeader, LuksToken};
use crate::domain::errors::DomainError;
use crate::text::concat;

verus! {

/// The texts of an array's entries (`None` for an entry that is not a
/// string), when `v` is an array.
pub open spec fn slot_texts(v: Option<Json>) -> Option<Seq<Option<Seq<char>>>> {
    match v {
        Some(Json::Array(a)) => Some(a@.map_values(|x: Json| text_of(Some(x)))),
        _ => None,
    }
}

/// The texts a token carries: id, type, key label, keyslots, filesystem.
pub open spec fn token_view(t: LuksToken) -> (
    Seq<char>,
    Option<Seq<char>>,
    Option<Seq<char>>,
    Option<Seq<Option<Seq<char>>>>,
    Option<Seq<char>>,
) {
    (
        t.id@,
        match t.token_type {
            Some(s) => Some(s@),
            None => None,
        },
        match t.key_label {
            Some(s) => Some(s@),
            None => None,
        },
        match t.keyslots {
            Some(v) => Some(
                v@.map_values(
                    |o: Option<String>|
                        match o {
                            Some(s) => Some(s@),
                            None => None,
                        },
                ),
            ),
            None => None,
        },
        match t.filesystem {
            Some(s) => Some(s@),
            None => None,
        },
    )
}

/// What the member `id` of the `tokens` object says, by the same texts.
pub open spec fn token_of_member(id: String, v: Json) -> (
    Seq<char>,
    Option<Seq<char>>,
    Option<Seq<char>>,
    Option<Seq<Option<Seq<char>>>>,
    Option<Seq<char>>,
) {
    (
        id@,
        text_of(get_member(fields_of(v), "type"@)),
        text_of(get_member(fields_of(v), "key_label"@)),
        slot_texts(get_member(fields_of(v), "keyslots"@)),
        text_of(get_member(fields_of(v), "filesystem"@)),
    )
}

/// `h` is the header `doc` describes: the member names of its `keyslots`
/// object, and one token per member of its `tokens` object, in order; each
/// absent (or not an object) stays absent.
pub open spec fn header_of(doc: Json, h: LuksHeader) -> bool {
    &&& match get_member(fields_of(doc), "keyslots"@) {
        Some(Json::Object(e)) => h.keyslot_ids matches Some(ids) && ids@.map_values(|s: String| s@)
            == e@.map_values(|m: (String, Json)| m.0@),
        _ => h.keyslot_ids is None,
    }
    &&& match get_member(fields_of(doc), "tokens"@) {
        Some(Json::Object(e)) => h.tokens matches Some(ts) && ts@.map_values(|t: LuksToken| token_view(t))
            == e@.map_values(|m: (String, Json)| token_of_member(m.0, m.1)),
        _ => h.tokens is None,
    }
}

fn slot_entries(v: Option<&Json>) -> (r: Option<Vec<Option<String>>>)
    ensures
        slot_texts(
            match v {
                Some(j) => Some(*j),
                None => None,
            },
        ) == match r {
            Some(e) => Some(
                e@.map_values(
                    |o: Option<String>|
                        match o {
                            Some(s) => Some(s@),
                            None => None,
                        },
                ),
            ),
            None => None::<Seq<Option<Seq<char>>>>,
        },
{
    match v {
        Some(Json::Array(a)) => {
            let mut out: Vec<Option<String>> = Vec::new();
            let mut i: usize = 0;
            while i < a.len()
                invariant
                    i <= a@.len(),
                    out@.len() == i,
                    forall|k: int|
                        0 <= k < i ==> (match #[trigger] out@[k] {
                            Some(s) => Some(s@),
                            None => None,
                        }) == text_of(Some(a@[k])),
                decreases a.len() - i,
            {
                out.push(text_value(Some(&a[i])));
                i = i + 1;
            }
            assert(out@.map_values(
                |o: Option<String>|
                    match o {
                        Some(s) => Some(s@),
                        None => None,
                    },
            ) =~= a@.map_values(|x: Json| text_of(Some(x))));
            Some(out)
        },
        _ => None,
    }
}

fn token_from_member(id: &String, v: &Json) -> (t: LuksToken)
    ensures
        token_view(t) == token_of_member(*id, *v),
{
    LuksToken {
        id: id.clone(),
        token_type: text_value(field(v, "type")),
        key_label: text_value(field(v, "key_label")),
        keyslots: slot_entries(field(v, "keyslots")),
        filesystem: text_value(field(v, "filesystem")),
    }
}

/// The header model of a parsed `luksDump` document.
pub fn header_from_json(doc: &Json) -> (h: LuksHeader)
    ensures
        header_of(*doc, h),
{
    let keyslot_ids = match field(doc, "keyslots") {
        Some(Json::Object(e)) => {
            let mut ids: Vec<String> = Vec::new();
            let mut i: usize = 0;
            while i < e.len()
                invariant
                    i <= e@.len(),
                    ids@.len() == i,
                    forall|k: int| 0 <= k < i ==> (#[trigger] ids@[k])@ == e@[k].0@,
                decreases e.len() - i,
            {
                ids.push(e[i].0.clone());
                i = i + 1;
            }
            assert(ids@.map_values(|s: String| s@) =~= e@.map_values(|m: (String, Json)| m.0@));
            Some(ids)
        },
        _ => None,
    };
    let tokens = match field(doc, "tokens") {
        Some(Json::Object(e)) => {
            let mut ts: Vec<LuksToken> = Vec::new();
            let mut i: usize = 0;
            while i < e.len()
                invariant
                    i <= e@.len(),
                    ts@.len() == i,
                    forall|k: int|
                        0 <= k < i ==> token_view(#[trigger] ts@[k]) == token_of_member(
                            e@[k].0,
                            e@[k].1,
                        ),
                decreases e.len() - i,
            {
                ts.push(token_from_member(&e[i].0, &e[i].1));
                i = i + 1;
            }
            assert(ts@.map_values(|t: LuksToken| token_view(t)) =~= e@.map_values(
                |m: (String, Json)| token_of_member(m.0, m.1),
            ));
            Some(ts)
        },
        _ => None,
    };
    LuksHeader { keyslot_ids, tokens }
}

/// The header described by the bytes `cryptsetup luksDump
/// --dump-json-metadata` printed; bytes serde_json cannot read are an
/// error carrying its reason.
pub fn parse_header(dump: &[u8]) -> (r: Result<LuksHeader, DomainError>)
    ensures
        match json_parsed(dump@) {
            Ok(doc) => r matches Ok(h) && header_of(doc, h),
            Err(e) => r matches Err(DomainError::AdapterFailure(m)) && m@
                == "failed to parse luksDump JSON: "@ + e,
        },
{
    match parse_json(dump) {
        Ok(doc) => Ok(header_from_json(&doc)),
        Err(e) => Err(DomainError::AdapterFailure(concat("failed to parse luksDump JSON: ", e.as_str()))),
    }
}

} // verus!
