//! A JSON document as the cluster describes resources, and the lookups that
//! the server makes in it.
use vstd::prelude::*;

verus! {

/// A JSON value. Numbers keep their text; an object keeps its fields in
/// order, each key once.
pub enum Json {
    Null,
    Bool(bool),
    Number(String),
    Str(String),
    Array(Vec<Json>),
    Object(Vec<(String, Json)>),
}

/// Field `i` of an object is the first one named `key`.
pub open spec fn first_field(fields: Seq<(String, Json)>, key: Seq<char>, i: int) -> bool {
    &&& 0 <= i < fields.len()
    &&& fields[i].0@ == key
    &&& forall|k: int| 0 <= k < i ==> (#[trigger] fields[k]).0@ != key
}

/// The value of the field `key` of an object (`value[key]`); `None` stands
/// for `null`, which is what indexing anything else, or a missing field,
/// gives.
pub open spec fn field(v: Json, key: Seq<char>) -> Option<Json> {
    match v {
        Json::Object(fields) => if exists|i: int| first_field(fields@, key, i) {
            Some(fields@[choose|i: int| first_field(fields@, key, i)].1)
        } else {
            None
        },
        _ => None,
    }
}

/// The text of a string value (`as_str`).
pub open spec fn text_of(v: Option<Json>) -> Option<Seq<char>> {
    match v {
        Some(Json::Str(s)) => Some(s@),
        _ => None,
    }
}

/// The value at `a.b.c` (`value[a][b][c]`).
pub open spec fn path3(v: Json, a: Seq<char>, b: Seq<char>, c: Seq<char>) -> Option<Json> {
    match field(v, a) {
        None => None,
        Some(x) => match field(x, b) {
            None => None,
            Some(y) => field(y, c),
        },
    }
}

/// The value at `a.b` (`value[a][b]`).
pub open spec fn path2(v: Json, a: Seq<char>, b: Seq<char>) -> Option<Json> {
    match field(v, a) {
        None => None,
        Some(x) => field(x, b),
    }
}

/// The value of the field `key`, or `None` for `null`.
pub fn get_field<'a>(v: &'a Json, key: &str) -> (r: Option<&'a Json>)
    ensures
        r matches Some(x) ==> field(*v, key@) == Some(*x),
        r is None ==> field(*v, key@) is None,
{
    match v {
        Json::Object(fields) => {
            let wanted = String::from_str(key);
            let mut i: usize = 0;
            while i < fields.len()
                invariant
                    i <= fields@.len(),
                    wanted@ == key@,
                    *v == Json::Object(*fields),
                    forall|k: int| 0 <= k < i ==> (#[trigger] fields@[k]).0@ != key@,
                decreases fields.len() - i,
            {
                if fields[i].0 == wanted {
                    assert(first_field(fields@, key@, i as int));
                    proof {
                        let c = choose|c: int| first_field(fields@, key@, c);
                        if c < i {
                            assert(fields@[c].0@ != key@);
                        }
                        assert(c == i);
                    }
                    return Some(&fields[i].1);
                }
                i = i + 1;
            }
            None
        },
        _ => None,
    }
}

/// The text of a string value.
pub fn as_text(v: Option<&Json>) -> (r: Option<&String>)
    ensures
        match r {
            Some(s) => text_of(match v {
                Some(x) => Some(*x),
                None => None,
            }) == Some(s@),
            None => text_of(match v {
                Some(x) => Some(*x),
                None => None,
            }) is None,
        },
{
    match v {
        Some(Json::Str(s)) => Some(s),
        _ => None,
    }
}

/// The value at `a.b.c`.
pub fn get_path3<'a>(v: &'a Json, a: &str, b: &str, c: &str) -> (r: Option<&'a Json>)
    ensures
        r matches Some(x) ==> path3(*v, a@, b@, c@) == Some(*x),
        r is None ==> path3(*v, a@, b@, c@) is None,
{
    match get_field(v, a) {
        None => None,
        Some(x) => match get_field(x, b) {
            None => None,
            Some(y) => get_field(y, c),
        },
    }
}

/// The value at `a.b`.
pub fn get_path2<'a>(v: &'a Json, a: &str, b: &str) -> (r: Option<&'a Json>)
    ensures
        r matches Some(x) ==> path2(*v, a@, b@) == Some(*x),
        r is None ==> path2(*v, a@, b@) is None,
{
    match get_field(v, a) {
        None => None,
        Some(x) => get_field(x, b),
    }
}

} // verus!
