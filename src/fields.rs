use vstd::prelude::*;
use vstd::string::*;
use crate::json::{field, get_field, same_text, Json, Number};
use crate::parser::YesOrNo;

verus! {

/// A required string member.
pub open spec fn str_at(j: Json, key: Seq<char>) -> Option<String> {
    match field(j, key) {
        Option::Some(Json::Str(s)) => Option::Some(s),
        _ => Option::None,
    }
}

/// A required integer member.
pub open spec fn int_at(j: Json, key: Seq<char>) -> Option<i64> {
    match field(j, key) {
        Option::Some(Json::Number(Number::Int(i))) => Option::Some(i),
        _ => Option::None,
    }
}

/// A required boolean member.
pub open spec fn bool_at(j: Json, key: Seq<char>) -> Option<bool> {
    match field(j, key) {
        Option::Some(Json::Bool(b)) => Option::Some(b),
        _ => Option::None,
    }
}

/// A required number member, integer or not.
pub open spec fn number_at(j: Json, key: Seq<char>) -> Option<Number> {
    match field(j, key) {
        Option::Some(Json::Number(n)) => Option::Some(n),
        _ => Option::None,
    }
}

/// An optional string member: absent or null is `Some(None)`; a member of
/// another shape does not decode (`None`).
pub open spec fn opt_str_at(j: Json, key: Seq<char>) -> Option<Option<String>> {
    match field(j, key) {
        Option::None => Option::Some(Option::None),
        Option::Some(Json::Null) => Option::Some(Option::None),
        Option::Some(Json::Str(s)) => Option::Some(Option::Some(s)),
        _ => Option::None,
    }
}

/// An optional integer member, read as `opt_str_at` reads strings.
pub open spec fn opt_int_at(j: Json, key: Seq<char>) -> Option<Option<i64>> {
    match field(j, key) {
        Option::None => Option::Some(Option::None),
        Option::Some(Json::Null) => Option::Some(Option::None),
        Option::Some(Json::Number(Number::Int(i))) => Option::Some(Option::Some(i)),
        _ => Option::None,
    }
}

/// An optional boolean member, read as `opt_str_at` reads strings.
pub open spec fn opt_bool_at(j: Json, key: Seq<char>) -> Option<Option<bool>> {
    match field(j, key) {
        Option::None => Option::Some(Option::None),
        Option::Some(Json::Null) => Option::Some(Option::None),
        Option::Some(Json::Bool(b)) => Option::Some(Option::Some(b)),
        _ => Option::None,
    }
}

/// An optional number member, read as `opt_str_at` reads strings.
pub open spec fn opt_number_at(j: Json, key: Seq<char>) -> Option<Option<Number>> {
    match field(j, key) {
        Option::None => Option::Some(Option::None),
        Option::Some(Json::Null) => Option::Some(Option::None),
        Option::Some(Json::Number(n)) => Option::Some(Option::Some(n)),
        _ => Option::None,
    }
}

/// Whether a member is absent or null.
pub open spec fn missing_at(j: Json, key: Seq<char>) -> bool {
    match field(j, key) {
        Option::None => true,
        Option::Some(Json::Null) => true,
        _ => false,
    }
}

pub fn get_str(j: &Json, key: &str) -> (r: Option<String>)
    ensures
        r == str_at(*j, key@),
{
    match get_field(j, key) {
        Option::Some(Json::Str(s)) => Option::Some(s.clone()),
        _ => Option::None,
    }
}

pub fn get_i64(j: &Json, key: &str) -> (r: Option<i64>)
    ensures
        r == int_at(*j, key@),
{
    match get_field(j, key) {
        Option::Some(Json::Number(Number::Int(i))) => Option::Some(*i),
        _ => Option::None,
    }
}

pub fn get_bool(j: &Json, key: &str) -> (r: Option<bool>)
    ensures
        r == bool_at(*j, key@),
{
    match get_field(j, key) {
        Option::Some(Json::Bool(b)) => Option::Some(*b),
        _ => Option::None,
    }
}

pub fn get_number(j: &Json, key: &str) -> (r: Option<Number>)
    ensures
        r == number_at(*j, key@),
{
    match get_field(j, key) {
        Option::Some(Json::Number(n)) => Option::Some(n.copy()),
        _ => Option::None,
    }
}

pub fn get_opt_str(j: &Json, key: &str) -> (r: Option<Option<String>>)
    ensures
        r == opt_str_at(*j, key@),
{
    match get_field(j, key) {
        Option::None => Option::Some(Option::None),
        Option::Some(Json::Null) => Option::Some(Option::None),
        Option::Some(Json::Str(s)) => Option::Some(Option::Some(s.clone())),
        _ => Option::None,
    }
}

pub fn get_opt_i64(j: &Json, key: &str) -> (r: Option<Option<i64>>)
    ensures
        r == opt_int_at(*j, key@),
{
    match get_field(j, key) {
        Option::None => Option::Some(Option::None),
        Option::Some(Json::Null) => Option::Some(Option::None),
        Option::Some(Json::Number(Number::Int(i))) => Option::Some(Option::Some(*i)),
        _ => Option::None,
    }
}

pub fn get_opt_bool(j: &Json, key: &str) -> (r: Option<Option<bool>>)
    ensures
        r == opt_bool_at(*j, key@),
{
    match get_field(j, key) {
        Option::None => Option::Some(Option::None),
        Option::Some(Json::Null) => Option::Some(Option::None),
        Option::Some(Json::Bool(b)) => Option::Some(Option::Some(*b)),
        _ => Option::None,
    }
}

pub fn get_opt_number(j: &Json, key: &str) -> (r: Option<Option<Number>>)
    ensures
        r == opt_number_at(*j, key@),
{
    match get_field(j, key) {
        Option::None => Option::Some(Option::None),
        Option::Some(Json::Null) => Option::Some(Option::None),
        Option::Some(Json::Number(n)) => Option::Some(Option::Some(n.copy())),
        _ => Option::None,
    }
}

/// `j` is an array of exactly the strings `v`.
pub open spec fn is_str_list(j: Json, v: Seq<String>) -> bool {
    match j {
        Json::Array(a) => a@.len() == v.len() && forall|i: int| 0 <= i < v.len() ==> a@[i] == Json::Str(#[trigger] v[i]),
        _ => false,
    }
}

/// `j` is an array of strings.
pub open spec fn str_list_ok(j: Json) -> bool {
    match j {
        Json::Array(a) => forall|i: int| 0 <= i < a@.len() ==> #[trigger] a@[i] is Str,
        _ => false,
    }
}

pub fn decode_str_list(j: &Json) -> (r: Option<Vec<String>>)
    ensures
        r is Some <==> str_list_ok(*j),
        r matches Option::Some(v) ==> is_str_list(*j, v@),
{
    let a = match j {
        Json::Array(a) => a,
        _ => return Option::None,
    };
    let mut out: Vec<String> = Vec::new();
    let mut i: usize = 0;
    while i < a.len()
        invariant
            *j == Json::Array(*a),
            i <= a@.len(),
            out@.len() == i,
            forall|k: int| 0 <= k < i ==> a@[k] == Json::Str(#[trigger] out@[k]),
            forall|k: int| 0 <= k < i ==> #[trigger] a@[k] is Str,
        decreases a@.len() - i,
    {
        match &a[i] {
            Json::Str(s) => out.push(s.clone()),
            _ => {
                assert(!(a@[i as int] is Str));
                return Option::None;
            },
        }
        i = i + 1;
    }
    Option::Some(out)
}

/// `j` is an array of string arrays, exactly `rows`.
pub open spec fn is_str_rows(j: Json, rows: Seq<Vec<String>>) -> bool {
    match j {
        Json::Array(a) => a@.len() == rows.len() && forall|i: int|
            0 <= i < rows.len() ==> is_str_list(a@[i], #[trigger] rows[i]@),
        _ => false,
    }
}

pub open spec fn str_rows_ok(j: Json) -> bool {
    match j {
        Json::Array(a) => forall|i: int| 0 <= i < a@.len() ==> str_list_ok(#[trigger] a@[i]),
        _ => false,
    }
}

pub fn decode_str_rows(j: &Json) -> (r: Option<Vec<Vec<String>>>)
    ensures
        r is Some <==> str_rows_ok(*j),
        r matches Option::Some(v) ==> is_str_rows(*j, v@),
{
    let a = match j {
        Json::Array(a) => a,
        _ => return Option::None,
    };
    let mut out: Vec<Vec<String>> = Vec::new();
    let mut i: usize = 0;
    while i < a.len()
        invariant
            *j == Json::Array(*a),
            i <= a@.len(),
            out@.len() == i,
            forall|k: int| 0 <= k < i ==> is_str_list(a@[k], #[trigger] out@[k]@),
            forall|k: int| 0 <= k < i ==> str_list_ok(#[trigger] a@[k]),
        decreases a@.len() - i,
    {
        match decode_str_list(&a[i]) {
            Option::Some(row) => out.push(row),
            Option::None => {
                assert(!str_list_ok(a@[i as int]));
                proof { lemma_rows_need_each(*a, i as int); }
                return Option::None;
            },
        }
        i = i + 1;
    }
    assert forall|k: int| 0 <= k < out@.len() implies is_str_list(a@[k], #[trigger] out@[k]@) by {}
    Option::Some(out)
}

proof fn lemma_rows_need_each(a: Vec<Json>, i: int)
    requires
        0 <= i < a@.len(),
        !str_list_ok(a@[i]),
    ensures
        !str_rows_ok(Json::Array(a)),
{
    let j = Json::Array(a);
    assert(j->Array_0 == a);
    if str_rows_ok(j) {
        assert(str_list_ok(a@[i]));
    }
}

/// `yes` and `no`; any other value does not decode.
pub open spec fn yes_no_of(j: Json) -> Option<YesOrNo> {
    match j {
        Json::Str(s) => if s@ == "yes"@ {
            Option::Some(YesOrNo::Yes)
        } else if s@ == "no"@ {
            Option::Some(YesOrNo::No)
        } else {
            Option::None
        },
        _ => Option::None,
    }
}

fn decode_yes_no(j: &Json) -> (r: Option<YesOrNo>)
    ensures
        r == yes_no_of(*j),
{
    match j {
        Json::Str(s) => if same_text(s.as_str(), "yes") {
            Option::Some(YesOrNo::Yes)
        } else if same_text(s.as_str(), "no") {
            Option::Some(YesOrNo::No)
        } else {
            Option::None
        },
        _ => Option::None,
    }
}

/// `j` is an array of arrays of `yes` / `no`, exactly `rows`.
pub open spec fn is_yes_no_rows(j: Json, rows: Seq<Vec<YesOrNo>>) -> bool {
    match j {
        Json::Array(a) => a@.len() == rows.len() && forall|i: int| 0 <= i < rows.len() ==> match #[trigger] a@[i] {
            Json::Array(b) => b@.len() == rows[i]@.len() && forall|k: int|
                0 <= k < b@.len() ==> yes_no_of(#[trigger] b@[k]) == Option::Some(rows[i]@[k]),
            _ => false,
        },
        _ => false,
    }
}

pub open spec fn yes_no_rows_ok(j: Json) -> bool {
    match j {
        Json::Array(a) => forall|i: int| 0 <= i < a@.len() ==> match #[trigger] a@[i] {
            Json::Array(b) => forall|k: int| 0 <= k < b@.len() ==> yes_no_of(#[trigger] b@[k]) is Some,
            _ => false,
        },
        _ => false,
    }
}

fn decode_yes_no_row(j: &Json) -> (r: Option<Vec<YesOrNo>>)
    ensures
        r is Some <==> match *j {
            Json::Array(b) => forall|k: int| 0 <= k < b@.len() ==> yes_no_of(#[trigger] b@[k]) is Some,
            _ => false,
        },
        r matches Option::Some(v) ==> match *j {
            Json::Array(b) => b@.len() == v@.len() && forall|k: int|
                0 <= k < b@.len() ==> yes_no_of(#[trigger] b@[k]) == Option::Some(v@[k]),
            _ => false,
        },
{
    let b = match j {
        Json::Array(b) => b,
        _ => return Option::None,
    };
    let mut out: Vec<YesOrNo> = Vec::new();
    let mut i: usize = 0;
    while i < b.len()
        invariant
            *j == Json::Array(*b),
            i <= b@.len(),
            out@.len() == i,
            forall|k: int| 0 <= k < i ==> yes_no_of(#[trigger] b@[k]) == Option::Some(out@[k]),
        decreases b@.len() - i,
    {
        match decode_yes_no(&b[i]) {
            Option::Some(x) => out.push(x),
            Option::None => return Option::None,
        }
        i = i + 1;
    }
    Option::Some(out)
}

pub fn decode_yes_no_rows(j: &Json) -> (r: Option<Vec<Vec<YesOrNo>>>)
    ensures
        r is Some <==> yes_no_rows_ok(*j),
        r matches Option::Some(v) ==> is_yes_no_rows(*j, v@),
{
    let a = match j {
        Json::Array(a) => a,
        _ => return Option::None,
    };
    let mut out: Vec<Vec<YesOrNo>> = Vec::new();
    let mut i: usize = 0;
    while i < a.len()
        invariant
            *j == Json::Array(*a),
            i <= a@.len(),
            out@.len() == i,
            forall|k: int| 0 <= k < i ==> match #[trigger] a@[k] {
                Json::Array(b) => b@.len() == out@[k]@.len() && forall|m: int|
                    0 <= m < b@.len() ==> yes_no_of(#[trigger] b@[m]) == Option::Some(out@[k]@[m]),
                _ => false,
            },
        decreases a@.len() - i,
    {
        match decode_yes_no_row(&a[i]) {
            Option::Some(row) => out.push(row),
            Option::None => return Option::None,
        }
        i = i + 1;
    }
    Option::Some(out)
}

} // verus!
