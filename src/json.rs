//! A JSON document model, and member lookup on JSON objects.
use vstd::prelude::*;

verus! {

/// One JSON value. Numbers that are non-negative integers within `u64` are
/// held as such; any other number is kept as its text.
#[derive(Debug)]
pub enum JsonValue {
    Null,
    Bool(bool),
    UInt(u64),
    OtherNumber(String),
    Str(String),
    Array(Vec<JsonValue>),
    Object(Vec<(String, JsonValue)>),
}

/// The members of a JSON object, as key and value pairs.
pub type JsonObject = Vec<(String, JsonValue)>;

/// The six kinds of JSON value.
#[derive(Clone, Copy, Debug, PartialEq, Eq, Structural)]
pub enum JsonKind {
    Null,
    Bool,
    Number,
    Str,
    Array,
    Object,
}

impl JsonValue {
    pub open spec fn kind(self) -> JsonKind {
        match self {
            JsonValue::Null => JsonKind::Null,
            JsonValue::Bool(_) => JsonKind::Bool,
            JsonValue::UInt(_) => JsonKind::Number,
            JsonValue::OtherNumber(_) => JsonKind::Number,
            JsonValue::Str(_) => JsonKind::Str,
            JsonValue::Array(_) => JsonKind::Array,
            JsonValue::Object(_) => JsonKind::Object,
        }
    }

    pub fn kind_of(&self) -> (r: JsonKind)
        ensures
            r == self.kind(),
    {
        match self {
            JsonValue::Null => JsonKind::Null,
            JsonValue::Bool(_) => JsonKind::Bool,
            JsonValue::UInt(_) => JsonKind::Number,
            JsonValue::OtherNumber(_) => JsonKind::Number,
            JsonValue::Str(_) => JsonKind::Str,
            JsonValue::Array(_) => JsonKind::Array,
            JsonValue::Object(_) => JsonKind::Object,
        }
    }
}

/// The value of member `key` of an object. Where a key occurs more than once,
/// the last occurrence wins.
pub open spec fn member(o: Seq<(String, JsonValue)>, key: Seq<char>) -> Option<JsonValue>
    decreases o.len(),
{
    if o.len() == 0 {
        None
    } else if o.last().0@ == key {
        Some(o.last().1)
    } else {
        member(o.drop_last(), key)
    }
}

/// Removing an entry whose key differs from `key` leaves the value of `key` alone.
pub proof fn lemma_member_remove(o: Seq<(String, JsonValue)>, i: int, key: Seq<char>)
    requires
        0 <= i < o.len(),
        o[i].0@ != key,
    ensures
        member(o.remove(i), key) == member(o, key),
    decreases o.len(),
{
    if i < o.len() - 1 {
        assert(o.remove(i).last() == o.last());
        if o.last().0@ != key {
            assert(o.remove(i).drop_last() =~= o.drop_last().remove(i));
            lemma_member_remove(o.drop_last(), i, key);
        }
    } else {
        assert(o.remove(i) =~= o.drop_last());
    }
}

/// `o` with every member named `key` removed.
pub open spec fn without(o: Seq<(String, JsonValue)>, key: Seq<char>) -> Seq<(String, JsonValue)> {
    o.filter(|p: (String, JsonValue)| p.0@ != key)
}

/// Removing every member named `key` makes `key` absent and leaves the others alone.
pub proof fn lemma_member_without(o: Seq<(String, JsonValue)>, key: Seq<char>, f: Seq<char>)
    ensures
        member(without(o, key), f) == if f == key {
            None
        } else {
            member(o, f)
        },
    decreases o.len(),
{
    reveal(Seq::filter);
    if o.len() > 0 {
        lemma_member_without(o.drop_last(), key, f);
        let rest = without(o.drop_last(), key);
        if o.last().0@ != key {
            assert(without(o, key) == rest.push(o.last()));
            assert(rest.push(o.last()).drop_last() =~= rest);
        } else {
            assert(without(o, key) == rest);
        }
    }
}

/// Inserting an entry whose key differs from `key` leaves the value of `key` alone.
pub proof fn lemma_member_insert(o: Seq<(String, JsonValue)>, i: int, p: (String, JsonValue), key: Seq<char>)
    requires
        0 <= i <= o.len(),
        p.0@ != key,
    ensures
        member(o.insert(i, p), key) == member(o, key),
    decreases o.len(),
{
    if i == o.len() {
        assert(o.insert(i, p).drop_last() =~= o);
    } else {
        assert(o.insert(i, p).last() == o.last());
        if o.last().0@ != key {
            assert(o.insert(i, p).drop_last() =~= o.drop_last().insert(i, p));
            lemma_member_insert(o.drop_last(), i, p, key);
        }
    }
}

/// The index of the last entry of `o` whose key is `key`, if any.
fn last_index_of(o: &JsonObject, key: &str) -> (r: Option<usize>)
    ensures
        match r {
            Some(i) => i < o@.len() && o@[i as int].0@ == key@ && member(o@, key@) == Some(
                o@[i as int].1,
            ) && forall|j: int| i < j < o@.len() ==> o@[j].0@ != key@,
            None => member(o@, key@) is None,
        },
{
    let wanted = key.to_owned();
    let mut n: usize = o.len();
    assert(o@.subrange(0, n as int) =~= o@);
    while n > 0
        invariant
            n <= o@.len(),
            wanted@ == key@,
            member(o@, key@) == member(o@.subrange(0, n as int), key@),
            forall|j: int| n <= j < o@.len() ==> o@[j].0@ != key@,
        decreases n,
    {
        assert(o@.subrange(0, n as int).drop_last() =~= o@.subrange(0, n - 1));
        if o[n - 1].0 == wanted {
            return Some(n - 1);
        }
        n = n - 1;
    }
    None
}

/// Moves the value of member `key` out of `o`. Other keys keep their values.
pub fn take_member(o: &mut JsonObject, key: &str) -> (r: Option<JsonValue>)
    ensures
        r == member(old(o)@, key@),
        forall|k: Seq<char>|
            k != key@ ==> #[trigger] member(final(o)@, k) == member(old(o)@, k),
{
    match last_index_of(o, key) {
        None => None,
        Some(i) => {
            let ghost before = o@;
            let (_, v) = o.remove(i);
            proof {
                assert forall|k: Seq<char>| k != key@ implies #[trigger] member(o@, k) == member(
                    before,
                    k,
                ) by {
                    lemma_member_remove(before, i as int, k);
                }
            }
            Some(v)
        },
    }
}

} // verus!
