//! The field rules: what a required or optional member must hold, and the
//! functions that move a checked member out of an object.
use vstd::prelude::*;
use crate::error::{DecodeError, DecodeFailure, Expected};
use crate::json::{member, take_member, JsonKind, JsonObject, JsonValue};

verus! {

broadcast use vstd::string::is_ascii_spec_bytes;

/// What a member's value is checked against.
#[derive(Clone, Copy, Debug, PartialEq, Eq, Structural)]
pub enum Rule {
    Str,
    UInt,
    Bool,
    ObjectId,
    Timestamp,
    Object,
    Objects,
}

pub open spec fn is_hex_code(n: u32) -> bool {
    (48 <= n <= 57) || (97 <= n <= 102) || (65 <= n <= 70)
}

/// A git object id: forty hexadecimal digits.
pub open spec fn is_object_id(s: Seq<char>) -> bool {
    s.len() == 40 && forall|i: int| 0 <= i < 40 ==> is_hex_code(#[trigger] s[i] as u32)
}

pub open spec fn is_digit_code(n: u32) -> bool {
    48 <= n <= 57
}

/// The character allowed at position `i` of `YYYY-MM-DDTHH:MM:SSZ`.
pub open spec fn timestamp_code_at(i: int, n: u32) -> bool {
    if i == 4 || i == 7 {
        n == 45
    } else if i == 10 {
        n == 84
    } else if i == 13 || i == 16 {
        n == 58
    } else if i == 19 {
        n == 90
    } else {
        is_digit_code(n)
    }
}

/// An ISO-8601 UTC instant in the form `YYYY-MM-DDTHH:MM:SSZ`.
pub open spec fn is_timestamp(s: Seq<char>) -> bool {
    s.len() == 20 && forall|i: int| 0 <= i < 20 ==> timestamp_code_at(i, #[trigger] s[i] as u32)
}

/// The kind of the first element of `a` that is not an object.
pub open spec fn first_non_object(a: Seq<JsonValue>) -> Option<JsonKind>
    decreases a.len(),
{
    if a.len() == 0 {
        None
    } else if !(a[0] is Object) {
        Some(a[0].kind())
    } else {
        first_non_object(a.drop_first())
    }
}

pub open spec fn mismatch(key: Seq<char>, e: Expected, v: JsonValue) -> Option<DecodeFailure> {
    Some(DecodeFailure::TypeMismatch(key, e, v.kind()))
}

/// Why the value `v` of member `key` breaks `rule`, if it does.
pub open spec fn value_error(key: Seq<char>, v: JsonValue, rule: Rule) -> Option<DecodeFailure> {
    match rule {
        Rule::Str => if v is Str { None } else { mismatch(key, Expected::Str, v) },
        Rule::UInt => if v is UInt { None } else { mismatch(key, Expected::UInt, v) },
        Rule::Bool => if v is Bool { None } else { mismatch(key, Expected::Bool, v) },
        Rule::ObjectId => match v {
            JsonValue::Str(s) => if is_object_id(s@) { None } else { mismatch(key, Expected::ObjectId, v) },
            _ => mismatch(key, Expected::ObjectId, v),
        },
        Rule::Timestamp => match v {
            JsonValue::Str(s) => if is_timestamp(s@) { None } else { mismatch(key, Expected::Timestamp, v) },
            _ => mismatch(key, Expected::Timestamp, v),
        },
        Rule::Object => if v is Object { None } else { mismatch(key, Expected::Object, v) },
        Rule::Objects => match v {
            JsonValue::Array(a) => match first_non_object(a@) {
                Some(k) => Some(DecodeFailure::TypeMismatch(key, Expected::Object, k)),
                None => None,
            },
            _ => mismatch(key, Expected::Array, v),
        },
    }
}

/// A required member must be present, and its value must meet `rule`.
pub open spec fn required_error(o: Seq<(String, JsonValue)>, key: Seq<char>, rule: Rule) -> Option<
    DecodeFailure,
> {
    match member(o, key) {
        None => Some(DecodeFailure::MissingField(key)),
        Some(v) => value_error(key, v, rule),
    }
}

/// An optional member may be absent or null; otherwise its value must meet `rule`.
pub open spec fn optional_error(o: Seq<(String, JsonValue)>, key: Seq<char>, rule: Rule) -> Option<
    DecodeFailure,
> {
    match member(o, key) {
        None => None,
        Some(v) => if v is Null { None } else { value_error(key, v, rule) },
    }
}

/// Member `key` is absent or null.
pub open spec fn is_absent(o: Seq<(String, JsonValue)>, key: Seq<char>) -> bool {
    member(o, key) is None || member(o, key) == Some(JsonValue::Null)
}

/// Member `key` holds `x`, or is absent or null where `x` is `None`.
pub open spec fn optional_is(o: Seq<(String, JsonValue)>, key: Seq<char>, x: Option<JsonValue>) -> bool {
    match x {
        Some(v) => member(o, key) == Some(v),
        None => is_absent(o, key),
    }
}

pub open spec fn str_value(x: Option<String>) -> Option<JsonValue> {
    match x {
        Some(s) => Some(JsonValue::Str(s)),
        None => None,
    }
}

pub open spec fn uint_value(x: Option<u64>) -> Option<JsonValue> {
    match x {
        Some(n) => Some(JsonValue::UInt(n)),
        None => None,
    }
}

pub open spec fn bool_value(x: Option<bool>) -> Option<JsonValue> {
    match x {
        Some(b) => Some(JsonValue::Bool(b)),
        None => None,
    }
}

pub open spec fn object_value(x: Option<JsonObject>) -> Option<JsonValue> {
    match x {
        Some(m) => Some(JsonValue::Object(m)),
        None => None,
    }
}

/// Member `key` is an array whose elements are the objects of `items`, in order.
pub open spec fn objects_at(o: Seq<(String, JsonValue)>, key: Seq<char>, items: Seq<JsonObject>) -> bool {
    member(o, key) is Some && array_of_objects(member(o, key)->0, items)
}

/// Every key other than `key` has the same value in `after` as in `before`.
pub open spec fn keeps_others(
    before: Seq<(String, JsonValue)>,
    after: Seq<(String, JsonValue)>,
    key: Seq<char>,
) -> bool {
    forall|k: Seq<char>| k != key ==> #[trigger] member(after, k) == member(before, k)
}

fn required(o: &mut JsonObject, key: &str) -> (r: Result<JsonValue, DecodeError>)
    ensures
        keeps_others(old(o)@, final(o)@, key@),
        match r {
            Ok(v) => member(old(o)@, key@) == Some(v),
            Err(e) => member(old(o)@, key@) is None && e@ == DecodeFailure::MissingField(key@),
        },
{
    match take_member(o, key) {
        Some(v) => Ok(v),
        None => Err(DecodeError::MissingField(key.to_owned())),
    }
}

/// The value of member `key`, or `None` where it is absent or null.
fn present(o: &mut JsonObject, key: &str) -> (r: Option<JsonValue>)
    ensures
        keeps_others(old(o)@, final(o)@, key@),
        match r {
            Some(v) => member(old(o)@, key@) == Some(v) && !(v is Null),
            None => is_absent(old(o)@, key@),
        },
{
    match take_member(o, key) {
        Some(JsonValue::Null) => None,
        Some(v) => Some(v),
        None => None,
    }
}

proof fn lemma_ascii_byte(c: char)
    requires
        c <= '\u{7f}',
    ensures
        (c as u8) as u32 == c as u32,
{
}

proof fn lemma_small_char(c: char)
    requires
        c as u32 <= 127,
    ensures
        '\0' <= c <= '\u{7f}',
{
}

fn hex_byte(b: u8) -> (r: bool)
    ensures
        r == is_hex_code(b as u32),
{
    (48 <= b && b <= 57) || (97 <= b && b <= 102) || (65 <= b && b <= 70)
}

fn timestamp_byte(i: usize, b: u8) -> (r: bool)
    ensures
        r == timestamp_code_at(i as int, b as u32),
{
    if i == 4 || i == 7 {
        b == 45
    } else if i == 10 {
        b == 84
    } else if i == 13 || i == 16 {
        b == 58
    } else if i == 19 {
        b == 90
    } else {
        48 <= b && b <= 57
    }
}

/// Whether `s` is a git object id.
pub fn object_id_text(s: &String) -> (r: bool)
    ensures
        r == is_object_id(s@),
{
    let t = s.as_str();
    if !t.is_ascii() {
        proof {
            if is_object_id(s@) {
                assert forall|i: int| 0 <= i < t@.len() implies '\0' <= #[trigger] t@[i] <= '\u{7f}' by {
                    assert(is_hex_code(t@[i] as u32));
                    lemma_small_char(t@[i]);
                }
            }
        }
        return false;
    }
    let b = t.as_bytes();
    assert(b@ =~= Seq::new(t@.len(), |i| t@[i] as u8));
    if b.len() != 40 {
        return false;
    }
    let mut i: usize = 0;
    while i < 40
        invariant
            b@.len() == 40,
            t@ == s@,
            t@.len() == 40,
            forall|j: int| 0 <= j < 40 ==> b@[j] == #[trigger] t@[j] as u8 && t@[j] <= '\u{7f}',
            forall|j: int| 0 <= j < i ==> is_hex_code(#[trigger] t@[j] as u32),
        decreases 40 - i,
    {
        proof {
            lemma_ascii_byte(t@[i as int]);
        }
        if !hex_byte(b[i]) {
            return false;
        }
        i = i + 1;
    }
    true
}

/// Whether `s` is an instant in the form `YYYY-MM-DDTHH:MM:SSZ`.
pub fn timestamp_text(s: &String) -> (r: bool)
    ensures
        r == is_timestamp(s@),
{
    let t = s.as_str();
    if !t.is_ascii() {
        proof {
            if is_timestamp(s@) {
                assert forall|i: int| 0 <= i < t@.len() implies '\0' <= #[trigger] t@[i] <= '\u{7f}' by {
                    assert(timestamp_code_at(i, t@[i] as u32));
                    lemma_small_char(t@[i]);
                }
            }
        }
        return false;
    }
    let b = t.as_bytes();
    assert(b@ =~= Seq::new(t@.len(), |i| t@[i] as u8));
    if b.len() != 20 {
        return false;
    }
    let mut i: usize = 0;
    while i < 20
        invariant
            b@.len() == 20,
            t@ == s@,
            t@.len() == 20,
            forall|j: int| 0 <= j < 20 ==> b@[j] == #[trigger] t@[j] as u8 && t@[j] <= '\u{7f}',
            forall|j: int| 0 <= j < i ==> timestamp_code_at(j, #[trigger] t@[j] as u32),
        decreases 20 - i,
    {
        proof {
            lemma_ascii_byte(t@[i as int]);
        }
        if !timestamp_byte(i, b[i]) {
            return false;
        }
        i = i + 1;
    }
    true
}

fn into_str(key: &str, v: JsonValue) -> (r: Result<String, DecodeError>)
    ensures
        match r {
            Ok(x) => v == JsonValue::Str(x) && value_error(key@, v, Rule::Str) is None,
            Err(e) => value_error(key@, v, Rule::Str) == Some(e@),
        },
{
    match v {
        JsonValue::Str(x) => Ok(x),
        _ => Err(DecodeError::TypeMismatch(key.to_owned(), Expected::Str, v.kind_of())),
    }
}

fn into_u64(key: &str, v: JsonValue) -> (r: Result<u64, DecodeError>)
    ensures
        match r {
            Ok(x) => v == JsonValue::UInt(x) && value_error(key@, v, Rule::UInt) is None,
            Err(e) => value_error(key@, v, Rule::UInt) == Some(e@),
        },
{
    match v {
        JsonValue::UInt(x) => Ok(x),
        _ => Err(DecodeError::TypeMismatch(key.to_owned(), Expected::UInt, v.kind_of())),
    }
}

fn into_bool(key: &str, v: JsonValue) -> (r: Result<bool, DecodeError>)
    ensures
        match r {
            Ok(x) => v == JsonValue::Bool(x) && value_error(key@, v, Rule::Bool) is None,
            Err(e) => value_error(key@, v, Rule::Bool) == Some(e@),
        },
{
    match v {
        JsonValue::Bool(x) => Ok(x),
        _ => Err(DecodeError::TypeMismatch(key.to_owned(), Expected::Bool, v.kind_of())),
    }
}

fn into_object_id(key: &str, v: JsonValue) -> (r: Result<String, DecodeError>)
    ensures
        match r {
            Ok(x) => v == JsonValue::Str(x) && value_error(key@, v, Rule::ObjectId) is None,
            Err(e) => value_error(key@, v, Rule::ObjectId) == Some(e@),
        },
{
    match v {
        JsonValue::Str(x) => if object_id_text(&x) {
            Ok(x)
        } else {
            Err(DecodeError::TypeMismatch(key.to_owned(), Expected::ObjectId, JsonKind::Str))
        },
        _ => Err(DecodeError::TypeMismatch(key.to_owned(), Expected::ObjectId, v.kind_of())),
    }
}

fn into_timestamp(key: &str, v: JsonValue) -> (r: Result<String, DecodeError>)
    ensures
        match r {
            Ok(x) => v == JsonValue::Str(x) && value_error(key@, v, Rule::Timestamp) is None,
            Err(e) => value_error(key@, v, Rule::Timestamp) == Some(e@),
        },
{
    match v {
        JsonValue::Str(x) => if timestamp_text(&x) {
            Ok(x)
        } else {
            Err(DecodeError::TypeMismatch(key.to_owned(), Expected::Timestamp, JsonKind::Str))
        },
        _ => Err(DecodeError::TypeMismatch(key.to_owned(), Expected::Timestamp, v.kind_of())),
    }
}

fn into_object(key: &str, v: JsonValue) -> (r: Result<JsonObject, DecodeError>)
    ensures
        match r {
            Ok(x) => v == JsonValue::Object(x) && value_error(key@, v, Rule::Object) is None,
            Err(e) => value_error(key@, v, Rule::Object) == Some(e@),
        },
{
    match v {
        JsonValue::Object(x) => Ok(x),
        _ => Err(DecodeError::TypeMismatch(key.to_owned(), Expected::Object, v.kind_of())),
    }
}

/// `a` is a JSON array whose elements are the objects of `items`, in order.
pub open spec fn array_of_objects(a: JsonValue, items: Seq<JsonObject>) -> bool {
    &&& a is Array
    &&& a->Array_0@.len() == items.len()
    &&& forall|i: int| 0 <= i < items.len() ==> a->Array_0@[i] == JsonValue::Object(#[trigger] items[i])
}

fn into_objects(key: &str, v: JsonValue) -> (r: Result<Vec<JsonObject>, DecodeError>)
    ensures
        match r {
            Ok(x) => array_of_objects(v, x@) && value_error(key@, v, Rule::Objects) is None,
            Err(e) => value_error(key@, v, Rule::Objects) == Some(e@),
        },
{
    let ghost whole = v;
    match v {
        JsonValue::Array(mut rest) => {
            let ghost all = rest@;
            let mut out: Vec<JsonObject> = Vec::new();
            while rest.len() > 0
                invariant
                    whole == v,
                    whole is Array && whole->Array_0@ == all,
                    all.len() == out@.len() + rest@.len(),
                    rest@ == all.subrange(out@.len() as int, all.len() as int),
                    forall|i: int| 0 <= i < out@.len() ==> all[i] == JsonValue::Object(#[trigger] out@[i]),
                    first_non_object(all) == first_non_object(rest@),
                decreases rest@.len(),
            {
                let ghost before = rest@;
                let x = rest.remove(0);
                assert(rest@ =~= before.drop_first());
                match x {
                    JsonValue::Object(m) => out.push(m),
                    _ => {
                        assert(first_non_object(before) == Some(x.kind()));
                        let e = DecodeError::TypeMismatch(key.to_owned(), Expected::Object, x.kind_of());
                        assert(value_error(key@, whole, Rule::Objects) == Some(e@));
                        return Err(e);
                    },
                }
            }
            Ok(out)
        },
        _ => Err(DecodeError::TypeMismatch(key.to_owned(), Expected::Array, v.kind_of())),
    }
}

pub(crate) fn required_str(o: &mut JsonObject, key: &str) -> (r: Result<String, DecodeError>)
    ensures
        keeps_others(old(o)@, final(o)@, key@),
        match r {
            Ok(x) => required_error(old(o)@, key@, Rule::Str) is None && member(old(o)@, key@)
                == Some(JsonValue::Str(x)),
            Err(e) => required_error(old(o)@, key@, Rule::Str) == Some(e@),
        },
{
    let v = required(o, key)?;
    into_str(key, v)
}

pub(crate) fn optional_str(o: &mut JsonObject, key: &str) -> (r: Result<Option<String>, DecodeError>)
    ensures
        keeps_others(old(o)@, final(o)@, key@),
        match r {
            Ok(Some(x)) => optional_error(old(o)@, key@, Rule::Str) is None && member(old(o)@, key@)
                == Some(JsonValue::Str(x)),
            Ok(None) => optional_error(old(o)@, key@, Rule::Str) is None && is_absent(old(o)@, key@),
            Err(e) => optional_error(old(o)@, key@, Rule::Str) == Some(e@),
        },
{
    match present(o, key) {
        Some(v) => {
            let x = into_str(key, v)?;
            Ok(Some(x))
        },
        None => Ok(None),
    }
}

pub(crate) fn required_u64(o: &mut JsonObject, key: &str) -> (r: Result<u64, DecodeError>)
    ensures
        keeps_others(old(o)@, final(o)@, key@),
        match r {
            Ok(x) => required_error(old(o)@, key@, Rule::UInt) is None && member(old(o)@, key@)
                == Some(JsonValue::UInt(x)),
            Err(e) => required_error(old(o)@, key@, Rule::UInt) == Some(e@),
        },
{
    let v = required(o, key)?;
    into_u64(key, v)
}

pub(crate) fn optional_u64(o: &mut JsonObject, key: &str) -> (r: Result<Option<u64>, DecodeError>)
    ensures
        keeps_others(old(o)@, final(o)@, key@),
        match r {
            Ok(Some(x)) => optional_error(old(o)@, key@, Rule::UInt) is None && member(old(o)@, key@)
                == Some(JsonValue::UInt(x)),
            Ok(None) => optional_error(old(o)@, key@, Rule::UInt) is None && is_absent(old(o)@, key@),
            Err(e) => optional_error(old(o)@, key@, Rule::UInt) == Some(e@),
        },
{
    match present(o, key) {
        Some(v) => {
            let x = into_u64(key, v)?;
            Ok(Some(x))
        },
        None => Ok(None),
    }
}

pub(crate) fn required_bool(o: &mut JsonObject, key: &str) -> (r: Result<bool, DecodeError>)
    ensures
        keeps_others(old(o)@, final(o)@, key@),
        match r {
            Ok(x) => required_error(old(o)@, key@, Rule::Bool) is None && member(old(o)@, key@)
                == Some(JsonValue::Bool(x)),
            Err(e) => required_error(old(o)@, key@, Rule::Bool) == Some(e@),
        },
{
    let v = required(o, key)?;
    into_bool(key, v)
}

pub(crate) fn optional_bool(o: &mut JsonObject, key: &str) -> (r: Result<Option<bool>, DecodeError>)
    ensures
        keeps_others(old(o)@, final(o)@, key@),
        match r {
            Ok(Some(x)) => optional_error(old(o)@, key@, Rule::Bool) is None && member(old(o)@, key@)
                == Some(JsonValue::Bool(x)),
            Ok(None) => optional_error(old(o)@, key@, Rule::Bool) is None && is_absent(old(o)@, key@),
            Err(e) => optional_error(old(o)@, key@, Rule::Bool) == Some(e@),
        },
{
    match present(o, key) {
        Some(v) => {
            let x = into_bool(key, v)?;
            Ok(Some(x))
        },
        None => Ok(None),
    }
}

pub(crate) fn required_object_id(o: &mut JsonObject, key: &str) -> (r: Result<String, DecodeError>)
    ensures
        keeps_others(old(o)@, final(o)@, key@),
        match r {
            Ok(x) => required_error(old(o)@, key@, Rule::ObjectId) is None && member(old(o)@, key@)
                == Some(JsonValue::Str(x)),
            Err(e) => required_error(old(o)@, key@, Rule::ObjectId) == Some(e@),
        },
{
    let v = required(o, key)?;
    into_object_id(key, v)
}

pub(crate) fn optional_object_id(o: &mut JsonObject, key: &str) -> (r: Result<Option<String>, DecodeError>)
    ensures
        keeps_others(old(o)@, final(o)@, key@),
        match r {
            Ok(Some(x)) => optional_error(old(o)@, key@, Rule::ObjectId) is None && member(old(o)@, key@)
                == Some(JsonValue::Str(x)),
            Ok(None) => optional_error(old(o)@, key@, Rule::ObjectId) is None && is_absent(old(o)@, key@),
            Err(e) => optional_error(old(o)@, key@, Rule::ObjectId) == Some(e@),
        },
{
    match present(o, key) {
        Some(v) => {
            let x = into_object_id(key, v)?;
            Ok(Some(x))
        },
        None => Ok(None),
    }
}

pub(crate) fn required_timestamp(o: &mut JsonObject, key: &str) -> (r: Result<String, DecodeError>)
    ensures
        keeps_others(old(o)@, final(o)@, key@),
        match r {
            Ok(x) => required_error(old(o)@, key@, Rule::Timestamp) is None && member(old(o)@, key@)
                == Some(JsonValue::Str(x)),
            Err(e) => required_error(old(o)@, key@, Rule::Timestamp) == Some(e@),
        },
{
    let v = required(o, key)?;
    into_timestamp(key, v)
}

pub(crate) fn optional_timestamp(o: &mut JsonObject, key: &str) -> (r: Result<Option<String>, DecodeError>)
    ensures
        keeps_others(old(o)@, final(o)@, key@),
        match r {
            Ok(Some(x)) => optional_error(old(o)@, key@, Rule::Timestamp) is None && member(old(o)@, key@)
                == Some(JsonValue::Str(x)),
            Ok(None) => optional_error(old(o)@, key@, Rule::Timestamp) is None && is_absent(old(o)@, key@),
            Err(e) => optional_error(old(o)@, key@, Rule::Timestamp) == Some(e@),
        },
{
    match present(o, key) {
        Some(v) => {
            let x = into_timestamp(key, v)?;
            Ok(Some(x))
        },
        None => Ok(None),
    }
}

pub(crate) fn required_object(o: &mut JsonObject, key: &str) -> (r: Result<JsonObject, DecodeError>)
    ensures
        keeps_others(old(o)@, final(o)@, key@),
        match r {
            Ok(x) => required_error(old(o)@, key@, Rule::Object) is None && member(old(o)@, key@)
                == Some(JsonValue::Object(x)),
            Err(e) => required_error(old(o)@, key@, Rule::Object) == Some(e@),
        },
{
    let v = required(o, key)?;
    into_object(key, v)
}

pub(crate) fn optional_object(o: &mut JsonObject, key: &str) -> (r: Result<Option<JsonObject>, DecodeError>)
    ensures
        keeps_others(old(o)@, final(o)@, key@),
        match r {
            Ok(Some(x)) => optional_error(old(o)@, key@, Rule::Object) is None && member(old(o)@, key@)
                == Some(JsonValue::Object(x)),
            Ok(None) => optional_error(old(o)@, key@, Rule::Object) is None && is_absent(old(o)@, key@),
            Err(e) => optional_error(old(o)@, key@, Rule::Object) == Some(e@),
        },
{
    match present(o, key) {
        Some(v) => {
            let x = into_object(key, v)?;
            Ok(Some(x))
        },
        None => Ok(None),
    }
}

pub(crate) fn required_objects(o: &mut JsonObject, key: &str) -> (r: Result<Vec<JsonObject>, DecodeError>)
    ensures
        keeps_others(old(o)@, final(o)@, key@),
        match r {
            Ok(x) => required_error(old(o)@, key@, Rule::Objects) is None && member(old(o)@, key@) is Some
                && array_of_objects(member(old(o)@, key@)->0, x@),
            Err(e) => required_error(old(o)@, key@, Rule::Objects) == Some(e@),
        },
{
    let v = required(o, key)?;
    into_objects(key, v)
}

} // verus!
