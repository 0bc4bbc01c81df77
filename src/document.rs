use vstd::prelude::*;
use vstd::string::*;
use crate::json::{field, get_field, same_tree, Json};
use crate::parser::{
    BlockTableType, BlockType, Either, LoadPageChunkData, NotionUserType, NotionUserValueType,
    RecordMapType,
};
use crate::blocks::{base_ok, decode_base, is_base_of};
use crate::fields::{get_i64, get_opt_bool, get_str, int_at, opt_bool_at, str_at};

verus! {

/// Why a document could not be read.
#[derive(Debug, Clone, Copy, PartialEq, Eq, Structural)]
pub enum DecodeError {
    /// The top level (the record map with its block and user maps, or an
    /// entry of one of them) is missing or has the wrong shape.
    Malformed,
}

/// A block table entry: an object with a string `role` and a `value`.
pub open spec fn entry_ok(e: Json) -> bool {
    str_at(e, "role"@) is Some && field(e, "value"@) is Some
}

/// `b` is the entry that `e` describes: the typed block where its value
/// decodes, else a copy of the raw value.
pub open spec fn is_entry_of(e: Json, b: BlockType) -> bool {
    &&& str_at(e, "role"@) == Option::Some(b.role)
    &&& field(e, "value"@) matches Option::Some(v) && match b.value {
        Either::Left(x) => base_ok(v) && is_base_of(v, x),
        Either::Right(raw) => !base_ok(v) && same_tree(raw, v),
    }
}

/// Decodes one entry of the block table. A value that does not decode as a
/// block is kept, raw, rather than failing the document.
pub fn decode_entry(e: &Json) -> (r: Option<BlockType>)
    ensures
        r is Some <==> entry_ok(*e),
        r matches Option::Some(b) ==> is_entry_of(*e, b),
{
    let role = match get_str(e, "role") {
        Option::Some(x) => x,
        Option::None => return Option::None,
    };
    let v = match get_field(e, "value") {
        Option::Some(v) => v,
        Option::None => return Option::None,
    };
    let value = match decode_base(v) {
        Option::Some(b) => Either::Left(b),
        Option::None => Either::Right(v.copy()),
    };
    Option::Some(BlockType { role, value })
}

/// Every member of a block map is a table entry.
pub open spec fn block_map_ok(m: Seq<(String, Json)>) -> bool {
    forall|i: int| 0 <= i < m.len() ==> entry_ok(#[trigger] m[i].1)
}

pub open spec fn is_block_map_of(m: Seq<(String, Json)>, t: Seq<(String, BlockType)>) -> bool {
    &&& m.len() == t.len()
    &&& forall|i: int| 0 <= i < m.len() ==> (#[trigger] t[i]).0 == m[i].0 && is_entry_of(m[i].1, t[i].1)
}

fn decode_block_map(m: &Vec<(String, Json)>) -> (r: Option<BlockTableType>)
    ensures
        r is Some <==> block_map_ok(m@),
        r matches Option::Some(t) ==> is_block_map_of(m@, t@),
{
    let mut out: BlockTableType = Vec::new();
    let mut i: usize = 0;
    while i < m.len()
        invariant
            i <= m@.len(),
            out@.len() == i,
            forall|k: int| 0 <= k < i ==> (#[trigger] out@[k]).0 == m@[k].0 && is_entry_of(m@[k].1, out@[k].1),
            forall|k: int| 0 <= k < i ==> entry_ok(#[trigger] m@[k].1),
        decreases m@.len() - i,
    {
        match decode_entry(&m[i].1) {
            Option::Some(b) => out.push((m[i].0.clone(), b)),
            Option::None => {
                assert(!entry_ok(m@[i as int].1));
                return Option::None;
            },
        }
        i = i + 1;
    }
    Option::Some(out)
}

/// A user entry: a string `role` and a `value` with the profile's members.
pub open spec fn user_ok(e: Json) -> bool {
    &&& str_at(e, "role"@) is Some
    &&& field(e, "value"@) matches Option::Some(v) && {
        &&& str_at(v, "id"@) is Some
        &&& int_at(v, "version"@) is Some
        &&& str_at(v, "email"@) is Some
        &&& str_at(v, "given_name"@) is Some
        &&& str_at(v, "family_name"@) is Some
        &&& str_at(v, "profile_photo"@) is Some
        &&& opt_bool_at(v, "pubonboarding_complete"@) is Some
        &&& opt_bool_at(v, "mobile_onboarding_complete"@) is Some
        &&& opt_bool_at(v, "clipper_onboarding_complete"@) is Some
    }
}

pub open spec fn is_user_of(e: Json, u: NotionUserType) -> bool {
    &&& str_at(e, "role"@) == Option::Some(u.role)
    &&& field(e, "value"@) matches Option::Some(v) && {
        &&& str_at(v, "id"@) == Option::Some(u.value.id)
        &&& int_at(v, "version"@) == Option::Some(u.value.version)
        &&& str_at(v, "email"@) == Option::Some(u.value.email)
        &&& str_at(v, "given_name"@) == Option::Some(u.value.given_name)
        &&& str_at(v, "family_name"@) == Option::Some(u.value.family_name)
        &&& str_at(v, "profile_photo"@) == Option::Some(u.value.profile_photo)
        &&& opt_bool_at(v, "pubonboarding_complete"@) == Option::Some(u.value.pubonboarding_complete)
        &&& opt_bool_at(v, "mobile_onboarding_complete"@) == Option::Some(u.value.mobile_onboarding_complete)
        &&& opt_bool_at(v, "clipper_onboarding_complete"@) == Option::Some(u.value.clipper_onboarding_complete)
    }
}

pub fn decode_user(e: &Json) -> (r: Option<NotionUserType>)
    ensures
        r is Some <==> user_ok(*e),
        r matches Option::Some(u) ==> is_user_of(*e, u),
{
    let role = match get_str(e, "role") { Option::Some(x) => x, Option::None => return Option::None };
    let v = match get_field(e, "value") { Option::Some(x) => x, Option::None => return Option::None };
    let id = match get_str(v, "id") { Option::Some(x) => x, Option::None => return Option::None };
    let version = match get_i64(v, "version") { Option::Some(x) => x, Option::None => return Option::None };
    let email = match get_str(v, "email") { Option::Some(x) => x, Option::None => return Option::None };
    let given_name = match get_str(v, "given_name") { Option::Some(x) => x, Option::None => return Option::None };
    let family_name = match get_str(v, "family_name") { Option::Some(x) => x, Option::None => return Option::None };
    let profile_photo = match get_str(v, "profile_photo") { Option::Some(x) => x, Option::None => return Option::None };
    let pubonboarding_complete = match get_opt_bool(v, "pubonboarding_complete") { Option::Some(x) => x, Option::None => return Option::None };
    let mobile_onboarding_complete = match get_opt_bool(v, "mobile_onboarding_complete") { Option::Some(x) => x, Option::None => return Option::None };
    let clipper_onboarding_complete = match get_opt_bool(v, "clipper_onboarding_complete") { Option::Some(x) => x, Option::None => return Option::None };
    Option::Some(NotionUserType {
        role,
        value: NotionUserValueType {
            id,
            version,
            email,
            given_name,
            family_name,
            profile_photo,
            pubonboarding_complete,
            mobile_onboarding_complete,
            clipper_onboarding_complete,
        },
    })
}

pub open spec fn user_map_ok(m: Seq<(String, Json)>) -> bool {
    forall|i: int| 0 <= i < m.len() ==> user_ok(#[trigger] m[i].1)
}

pub open spec fn is_user_map_of(m: Seq<(String, Json)>, t: Seq<(String, NotionUserType)>) -> bool {
    &&& m.len() == t.len()
    &&& forall|i: int| 0 <= i < m.len() ==> (#[trigger] t[i]).0 == m[i].0 && is_user_of(m[i].1, t[i].1)
}

fn decode_user_map(m: &Vec<(String, Json)>) -> (r: Option<Vec<(String, NotionUserType)>>)
    ensures
        r is Some <==> user_map_ok(m@),
        r matches Option::Some(t) ==> is_user_map_of(m@, t@),
{
    let mut out: Vec<(String, NotionUserType)> = Vec::new();
    let mut i: usize = 0;
    while i < m.len()
        invariant
            i <= m@.len(),
            out@.len() == i,
            forall|k: int| 0 <= k < i ==> (#[trigger] out@[k]).0 == m@[k].0 && is_user_of(m@[k].1, out@[k].1),
            forall|k: int| 0 <= k < i ==> user_ok(#[trigger] m@[k].1),
        decreases m@.len() - i,
    {
        match decode_user(&m[i].1) {
            Option::Some(u) => out.push((m[i].0.clone(), u)),
            Option::None => {
                assert(!user_ok(m@[i as int].1));
                return Option::None;
            },
        }
        i = i + 1;
    }
    Option::Some(out)
}

/// Whether a document's top level has its shape: a `recordMap` object whose
/// `block` and `notion_user` members are objects of well-formed entries.
pub open spec fn document_ok(j: Json) -> bool {
    field(j, "recordMap"@) matches Option::Some(rm) && {
        &&& field(rm, "block"@) matches Option::Some(Json::Object(b)) && block_map_ok(b@)
        &&& field(rm, "notion_user"@) matches Option::Some(Json::Object(u)) && user_map_ok(u@)
    }
}

pub open spec fn is_document_of(j: Json, d: LoadPageChunkData) -> bool {
    field(j, "recordMap"@) matches Option::Some(rm) && {
        &&& field(rm, "block"@) matches Option::Some(Json::Object(b)) && is_block_map_of(b@, d.record_map.block@)
        &&& field(rm, "notion_user"@) matches Option::Some(Json::Object(u)) && is_user_map_of(u@, d.record_map.notion_user@)
    }
}

/// Decodes a whole document. It fails only where the top level is malformed;
/// a block whose value cannot be typed is kept as a raw entry.
pub fn parse(input: &Json) -> (r: Result<LoadPageChunkData, DecodeError>)
    ensures
        r is Ok <==> document_ok(*input),
        r matches Result::Ok(d) ==> is_document_of(*input, d),
        r matches Result::Err(e) ==> e == DecodeError::Malformed,
{
    let rm = match get_field(input, "recordMap") {
        Option::Some(x) => x,
        Option::None => return Result::Err(DecodeError::Malformed),
    };
    let block = match get_field(rm, "block") {
        Option::Some(Json::Object(b)) => match decode_block_map(b) {
            Option::Some(t) => t,
            Option::None => return Result::Err(DecodeError::Malformed),
        },
        _ => return Result::Err(DecodeError::Malformed),
    };
    let notion_user = match get_field(rm, "notion_user") {
        Option::Some(Json::Object(u)) => match decode_user_map(u) {
            Option::Some(t) => t,
            Option::None => return Result::Err(DecodeError::Malformed),
        },
        _ => return Result::Err(DecodeError::Malformed),
    };
    Result::Ok(LoadPageChunkData { record_map: RecordMapType { block, notion_user } })
}

} // verus!
