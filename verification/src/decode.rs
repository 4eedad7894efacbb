//! Field readers for typed decoding: each reads one member of a payload
//! object the way the response shapes ask for it, with a spec twin that
//! the response contracts are stated over.
use crate::json::{JsonSpec, JsonValue};
use vstd::prelude::*;

verus! {

broadcast use vstd::std_specs::vec::group_vec_axioms;

/// The view of a vector of strings, element by element.
pub open spec fn strings_view(v: Seq<String>) -> Seq<Seq<char>> {
    Seq::new(v.len(), |i: int| v[i]@)
}

/// The view of a vector of JSON values, element by element.
pub open spec fn values_view(v: Seq<JsonValue>) -> Seq<JsonSpec> {
    Seq::new(v.len(), |i: int| v[i]@)
}

/// The view of an optional string.
pub open spec fn opt_string_view(o: Option<String>) -> Option<Seq<char>> {
    match o {
        Option::Some(s) => Option::Some(s@),
        Option::None => Option::None,
    }
}

/// The view of an optional JSON value.
pub open spec fn opt_value_view(o: Option<JsonValue>) -> Option<JsonSpec> {
    match o {
        Option::Some(v) => Option::Some(v@),
        Option::None => Option::None,
    }
}

/// The view of an optional vector of strings.
pub open spec fn opt_strings_view(o: Option<Vec<String>>) -> Option<Seq<Seq<char>>> {
    match o {
        Option::Some(v) => Option::Some(strings_view(v@)),
        Option::None => Option::None,
    }
}

/// The view of an optional vector of JSON values.
pub open spec fn opt_values_view(o: Option<Vec<JsonValue>>) -> Option<Seq<JsonSpec>> {
    match o {
        Option::Some(v) => Option::Some(values_view(v@)),
        Option::None => Option::None,
    }
}

/// A required string member: present and a string, else a decode fault.
pub open spec fn spec_req_string(j: JsonSpec, key: Seq<char>) -> Result<Seq<char>, ()> {
    match j.get(key) {
        Option::Some(JsonSpec::Str(s)) => Ok(s),
        _ => Err(()),
    }
}

/// An optional string member: absent or null is `None`; any other
/// non-string is a decode fault.
pub open spec fn spec_opt_string(j: JsonSpec, key: Seq<char>) -> Result<
    Option<Seq<char>>,
    (),
> {
    match j.get(key) {
        Option::None => Ok(Option::None),
        Option::Some(JsonSpec::Null) => Ok(Option::None),
        Option::Some(JsonSpec::Str(s)) => Ok(Option::Some(s)),
        Option::Some(_) => Err(()),
    }
}

/// An optional integer member that must fit in 32 bits.
pub open spec fn spec_opt_i32(j: JsonSpec, key: Seq<char>) -> Result<Option<i32>, ()> {
    match j.get(key) {
        Option::None => Ok(Option::None),
        Option::Some(JsonSpec::Null) => Ok(Option::None),
        Option::Some(JsonSpec::Int(i)) => if i32::MIN <= i <= i32::MAX {
            Ok(Option::Some(i as i32))
        } else {
            Err(())
        },
        Option::Some(_) => Err(()),
    }
}

/// An optional integer member, 64 bits wide.
pub open spec fn spec_opt_i64(j: JsonSpec, key: Seq<char>) -> Result<Option<i64>, ()> {
    match j.get(key) {
        Option::None => Ok(Option::None),
        Option::Some(JsonSpec::Null) => Ok(Option::None),
        Option::Some(JsonSpec::Int(i)) => Ok(Option::Some(i as i64)),
        Option::Some(_) => Err(()),
    }
}

/// A member kept as a plain JSON value: absent or null is `None`.
pub open spec fn spec_opt_member(j: JsonSpec, key: Seq<char>) -> Option<JsonSpec> {
    match j.get(key) {
        Option::None => Option::None,
        Option::Some(JsonSpec::Null) => Option::None,
        Option::Some(x) => Option::Some(x),
    }
}

/// Every element of the sequence is a string.
pub open spec fn all_strings(items: Seq<JsonSpec>) -> bool {
    forall|i: int| 0 <= i < items.len() ==> (#[trigger] items[i]) is Str
}

/// The strings of a sequence of string values.
pub open spec fn string_items(items: Seq<JsonSpec>) -> Seq<Seq<char>> {
    Seq::new(items.len(), |i: int| items[i]->Str_0)
}

/// A required array-of-strings member.
pub open spec fn spec_req_string_arr(j: JsonSpec, key: Seq<char>) -> Result<
    Seq<Seq<char>>,
    (),
> {
    match j.get(key) {
        Option::Some(JsonSpec::Arr(items)) => if all_strings(items) {
            Ok(string_items(items))
        } else {
            Err(())
        },
        _ => Err(()),
    }
}

/// An optional array-of-strings member.
pub open spec fn spec_opt_string_arr(j: JsonSpec, key: Seq<char>) -> Result<
    Option<Seq<Seq<char>>>,
    (),
> {
    match j.get(key) {
        Option::None => Ok(Option::None),
        Option::Some(JsonSpec::Null) => Ok(Option::None),
        Option::Some(JsonSpec::Arr(items)) => if all_strings(items) {
            Ok(Option::Some(string_items(items)))
        } else {
            Err(())
        },
        Option::Some(_) => Err(()),
    }
}

/// An optional array member whose elements stay plain JSON values.
pub open spec fn spec_opt_value_arr(j: JsonSpec, key: Seq<char>) -> Result<
    Option<Seq<JsonSpec>>,
    (),
> {
    match j.get(key) {
        Option::None => Ok(Option::None),
        Option::Some(JsonSpec::Null) => Ok(Option::None),
        Option::Some(JsonSpec::Arr(items)) => Ok(Option::Some(items)),
        Option::Some(_) => Err(()),
    }
}

/// A required boolean member.
pub open spec fn spec_req_bool(j: JsonSpec, key: Seq<char>) -> Result<bool, ()> {
    match j.get(key) {
        Option::Some(JsonSpec::Bool(b)) => Ok(b),
        _ => Err(()),
    }
}

/// Whether the value is an object.
pub fn is_obj(v: &JsonValue) -> (r: bool)
    ensures
        r == (v@ is Obj),
{
    match v {
        JsonValue::Obj(_) => true,
        _ => false,
    }
}

pub fn req_bool(v: &JsonValue, key: &String) -> (r: Result<bool, ()>)
    ensures
        match r {
            Ok(b) => spec_req_bool(v@, key@) == Ok::<_, ()>(b),
            Err(_) => spec_req_bool(v@, key@) is Err,
        },
{
    match v.get(key) {
        Some(x) => match x {
            JsonValue::Bool(b) => Ok(*b),
            _ => Err(()),
        },
        None => Err(()),
    }
}

pub fn req_string(v: &JsonValue, key: &String) -> (r: Result<String, ()>)
    ensures
        match r {
            Ok(s) => spec_req_string(v@, key@) == Ok::<_, ()>(s@),
            Err(_) => spec_req_string(v@, key@) is Err,
        },
{
    match v.get(key) {
        Some(x) => match x {
            JsonValue::Str(s) => Ok(s.clone()),
            _ => Err(()),
        },
        None => Err(()),
    }
}

pub fn opt_string(v: &JsonValue, key: &String) -> (r: Result<Option<String>, ()>)
    ensures
        match r {
            Ok(o) => spec_opt_string(v@, key@) == Ok::<_, ()>(opt_string_view(o)),
            Err(_) => spec_opt_string(v@, key@) is Err,
        },
{
    match v.get(key) {
        Some(x) => match x {
            JsonValue::Str(s) => Ok(Some(s.clone())),
            JsonValue::Null => Ok(None),
            _ => Err(()),
        },
        None => Ok(None),
    }
}

pub fn opt_i32(v: &JsonValue, key: &String) -> (r: Result<Option<i32>, ()>)
    ensures
        match r {
            Ok(o) => spec_opt_i32(v@, key@) == Ok::<_, ()>(o),
            Err(_) => spec_opt_i32(v@, key@) is Err,
        },
{
    match v.get(key) {
        Some(x) => match x {
            JsonValue::Int(i) => {
                let i = *i;
                if i >= -0x8000_0000i64 && i <= 0x7fff_ffffi64 {
                    Ok(Some(i as i32))
                } else {
                    Err(())
                }
            },
            JsonValue::Null => Ok(None),
            _ => Err(()),
        },
        None => Ok(None),
    }
}

pub fn opt_i64(v: &JsonValue, key: &String) -> (r: Result<Option<i64>, ()>)
    ensures
        match r {
            Ok(o) => spec_opt_i64(v@, key@) == Ok::<_, ()>(o),
            Err(_) => spec_opt_i64(v@, key@) is Err,
        },
{
    match v.get(key) {
        Some(x) => match x {
            JsonValue::Int(i) => Ok(Some(*i)),
            JsonValue::Null => Ok(None),
            _ => Err(()),
        },
        None => Ok(None),
    }
}

pub fn opt_member(v: &JsonValue, key: &String) -> (r: Option<JsonValue>)
    ensures
        opt_value_view(r) == spec_opt_member(v@, key@),
{
    match v.get(key) {
        Some(x) => match x {
            JsonValue::Null => None,
            _ => Some(x.duplicate()),
        },
        None => None,
    }
}

pub fn req_string_arr(v: &JsonValue, key: &String) -> (r: Result<Vec<String>, ()>)
    ensures
        match r {
            Ok(vs) => spec_req_string_arr(v@, key@) == Ok::<_, ()>(strings_view(vs@)),
            Err(_) => spec_req_string_arr(v@, key@) is Err,
        },
{
    match v.get(key) {
        Some(x) => match x {
            JsonValue::Arr(items) => {
                proof {
                    assert(x@->Arr_0 =~= values_view(items@));
                }
                string_vec(items)
            },
            _ => Err(()),
        },
        None => Err(()),
    }
}

pub fn opt_string_arr(v: &JsonValue, key: &String) -> (r: Result<Option<Vec<String>>, ()>)
    ensures
        match r {
            Ok(o) => spec_opt_string_arr(v@, key@) == Ok::<_, ()>(opt_strings_view(o)),
            Err(_) => spec_opt_string_arr(v@, key@) is Err,
        },
{
    match v.get(key) {
        Some(x) => match x {
            JsonValue::Arr(items) => {
                proof {
                    assert(x@->Arr_0 =~= values_view(items@));
                }
                match string_vec(items) {
                    Ok(vs) => Ok(Some(vs)),
                    Err(_) => Err(()),
                }
            },
            JsonValue::Null => Ok(None),
            _ => Err(()),
        },
        None => Ok(None),
    }
}

pub fn opt_value_arr(v: &JsonValue, key: &String) -> (r: Result<Option<Vec<JsonValue>>, ()>)
    ensures
        match r {
            Ok(o) => spec_opt_value_arr(v@, key@) == Ok::<_, ()>(opt_values_view(o)),
            Err(_) => spec_opt_value_arr(v@, key@) is Err,
        },
{
    match v.get(key) {
        Some(x) => match x {
            JsonValue::Arr(items) => {
                let n = items.len();
                let mut out: Vec<JsonValue> = Vec::new();
                let mut i: usize = 0;
                while i < n
                    invariant
                        n == items@.len(),
                        0 <= i <= n,
                        out@.len() == i,
                        forall|k: int| 0 <= k < i ==> (#[trigger] out@[k])@ == items@[k]@,
                    decreases n - i,
                {
                    let c = items[i].duplicate();
                    out.push(c);
                    i += 1;
                }
                proof {
                    assert(values_view(out@) =~= x@->Arr_0);
                }
                Ok(Some(out))
            },
            JsonValue::Null => Ok(None),
            _ => Err(()),
        },
        None => Ok(None),
    }
}

/// Every item as a string, or a decode fault on the first non-string.
fn string_vec(items: &Vec<JsonValue>) -> (r: Result<Vec<String>, ()>)
    ensures
        match r {
            Ok(vs) => all_strings(values_view(items@)) && strings_view(vs@) == string_items(
                values_view(items@),
            ),
            Err(_) => !all_strings(values_view(items@)),
        },
{
    let n = items.len();
    let mut out: Vec<String> = Vec::new();
    let mut i: usize = 0;
    while i < n
        invariant
            n == items@.len(),
            0 <= i <= n,
            out@.len() == i,
            forall|k: int| 0 <= k < i ==> (#[trigger] items@[k])@ is Str,
            forall|k: int| 0 <= k < i ==> (#[trigger] out@[k])@ == items@[k]@->Str_0,
        decreases n - i,
    {
        match &items[i] {
            JsonValue::Str(s) => {
                let c = s.clone();
                out.push(c);
            },
            _ => {
                proof {
                    assert(!all_strings(values_view(items@))) by {
                        assert(values_view(items@)[i as int] == items@[i as int]@);
                    }
                }
                return Err(());
            },
        }
        i += 1;
    }
    proof {
        assert(strings_view(out@) =~= string_items(values_view(items@)));
    }
    Ok(out)
}

} // verus!
