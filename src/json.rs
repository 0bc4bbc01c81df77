use vstd::prelude::*;
use vstd::string::*;

verus! {

/// A JSON number. Integers that fit in an `i64` are held as such; any other
/// number keeps its decimal text.
#[derive(Debug)]
pub enum Number {
    Int(i64),
    Decimal(String),
}

/// A parsed JSON value. Object members keep their order of appearance.
#[derive(Debug)]
pub enum Json {
    Null,
    Bool(bool),
    Number(Number),
    Str(String),
    Array(Vec<Json>),
    Object(Vec<(String, Json)>),
}

impl Number {
    /// An identical number.
    pub fn copy(&self) -> (r: Number)
        ensures
            r == *self,
    {
        match self {
            Number::Int(i) => Number::Int(*i),
            Number::Decimal(t) => Number::Decimal(t.clone()),
        }
    }
}

broadcast use vstd::std_specs::vec::axiom_vec_index_decreases;

/// Two trees with the same shape and the same scalars and keys at every place.
pub open spec fn same_tree(a: Json, b: Json) -> bool
    decreases a,
{
    match (a, b) {
        (Json::Array(x), Json::Array(y)) => x@.len() == y@.len() && forall|i: int|
            0 <= i < x@.len() ==> same_tree(#[trigger] x@[i], y@[i]),
        (Json::Object(x), Json::Object(y)) => x@.len() == y@.len() && forall|i: int|
            0 <= i < x@.len() ==> (#[trigger] x@[i]).0 == y@[i].0 && same_tree(x@[i].1, y@[i].1),
        (Json::Array(_), _) | (Json::Object(_), _) => false,
        _ => a == b,
    }
}

impl Json {
    /// A copy of the whole tree.
    #[verifier::loop_isolation(false)]
    pub fn copy(&self) -> (r: Json)
        ensures
            same_tree(r, *self),
        decreases self,
    {
        broadcast use vstd::std_specs::vec::axiom_vec_index_decreases;
        match self {
            Json::Null => Json::Null,
            Json::Bool(b) => Json::Bool(*b),
            Json::Number(n) => Json::Number(n.copy()),
            Json::Str(t) => Json::Str(t.clone()),
            Json::Array(items) => {
                let mut out: Vec<Json> = Vec::new();
                let mut i: usize = 0;
                while i < items.len()
                    invariant
                        i <= items@.len(),
                        out@.len() == i,
                        forall|k: int| 0 <= k < i ==> same_tree(#[trigger] out@[k], items@[k]),
                    decreases items@.len() - i,
                {
                    assert(decreases_to!(*items => items[i as int]));
                    assert(decreases_to!(*self => items[i as int]));
                    out.push(items[i].copy());
                    i = i + 1;
                }
                let r = Json::Array(out);
                assert(r->Array_0 == out);
                r
            },
            Json::Object(members) => {
                let mut out: Vec<(String, Json)> = Vec::new();
                let mut i: usize = 0;
                while i < members.len()
                    invariant
                        i <= members@.len(),
                        out@.len() == i,
                        forall|k: int| 0 <= k < i ==> (#[trigger] out@[k]).0 == members@[k].0 && same_tree(out@[k].1, members@[k].1),
                    decreases members@.len() - i,
                {
                    assert(decreases_to!(*members => members[i as int]));
                    assert(decreases_to!(*self => members[i as int].1));
                    out.push((members[i].0.clone(), members[i].1.copy()));
                    i = i + 1;
                }
                let r = Json::Object(out);
                assert(r->Object_0 == out);
                r
            },
        }
    }
}

/// The value of member `key` in `members`; where a key repeats, the last one wins.
pub open spec fn member(members: Seq<(String, Json)>, key: Seq<char>) -> Option<Json>
    decreases members.len(),
{
    if members.len() == 0 {
        None
    } else if members.last().0@ == key {
        Some(members.last().1)
    } else {
        member(members.drop_last(), key)
    }
}

/// The member `key` of `j` when `j` is an object.
pub open spec fn field(j: Json, key: Seq<char>) -> Option<Json> {
    match j {
        Json::Object(m) => member(m@, key),
        _ => None,
    }
}

/// Compares two pieces of text by their characters.
pub fn same_text(a: &str, b: &str) -> (r: bool)
    ensures
        r == (a@ == b@),
{
    let x = String::from_str(a);
    let y = String::from_str(b);
    x == y
}

/// Finds the member `key` of an object's members, as `member` describes.
pub fn find_member<'a>(members: &'a Vec<(String, Json)>, key: &str) -> (r: Option<&'a Json>)
    ensures
        match r {
            Some(v) => member(members@, key@) == Some(*v),
            None => member(members@, key@) is None,
        },
{
    let mut i = members.len();
    assert(members@.subrange(0, i as int) =~= members@);
    while i > 0
        invariant
            i <= members@.len(),
            member(members@, key@) == member(members@.subrange(0, i as int), key@),
        decreases i,
    {
        assert(members@.subrange(0, i as int).drop_last() =~= members@.subrange(0, i - 1));
        if same_text(members[i - 1].0.as_str(), key) {
            return Some(&members[i - 1].1);
        }
        i = i - 1;
    }
    assert(members@.subrange(0, 0) =~= Seq::<(String, Json)>::empty());
    None
}

/// Looks up member `key` of `j`, as `field` describes.
pub fn get_field<'a>(j: &'a Json, key: &str) -> (r: Option<&'a Json>)
    ensures
        match r {
            Some(v) => field(*j, key@) == Some(*v),
            None => field(*j, key@) is None,
        },
{
    match j {
        Json::Object(m) => find_member(m, key),
        _ => None,
    }
}

} // verus!
