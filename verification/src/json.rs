//! The library's model of a JSON value, and the spec-level functions that
//! contracts use to speak about object lookup and update.
use vstd::prelude::*;

verus! {

broadcast use vstd::std_specs::vec::group_vec_axioms;

/// A JSON value as this library models the vendor's wire format:
/// numbers are integers, which is all the API's schema uses.
#[derive(Debug)]
pub enum JsonValue {
    Null,
    Bool(bool),
    Int(i64),
    Str(String),
    Arr(Vec<JsonValue>),
    Obj(Vec<(String, JsonValue)>),
}

/// The mathematical shape of a JSON value: strings are character
/// sequences, arrays and objects are sequences of entries. Object
/// entries keep their order; lookup takes the first entry with the key.
pub enum JsonSpec {
    Null,
    Bool(bool),
    Int(int),
    Str(Seq<char>),
    Arr(Seq<JsonSpec>),
    Obj(Seq<(Seq<char>, JsonSpec)>),
}

impl JsonValue {
    /// The mathematical value this node stands for.
    pub open spec fn view(&self) -> JsonSpec
        decreases self,
    {
        match self {
            JsonValue::Null => JsonSpec::Null,
            JsonValue::Bool(b) => JsonSpec::Bool(*b),
            JsonValue::Int(i) => JsonSpec::Int(*i as int),
            JsonValue::Str(s) => JsonSpec::Str(s@),
            JsonValue::Arr(items) => JsonSpec::Arr(
                Seq::new(
                    items@.len(),
                    |i: int|
                        if 0 <= i < items@.len() {
                            items[i]@
                        } else {
                            JsonSpec::Null
                        },
                ),
            ),
            JsonValue::Obj(entries) => JsonSpec::Obj(
                Seq::new(
                    entries@.len(),
                    |i: int|
                        if 0 <= i < entries@.len() {
                            (entries[i].0@, entries[i].1@)
                        } else {
                            (Seq::empty(), JsonSpec::Null)
                        },
                ),
            ),
        }
    }
}

/// The view of a vector of object entries, entry by entry.
pub open spec fn entries_view(entries: Seq<(String, JsonValue)>) -> Seq<(Seq<char>, JsonSpec)> {
    Seq::new(entries.len(), |i: int| (entries[i].0@, entries[i].1@))
}

/// Lookup in an entry sequence: the value of the first entry with the key.
pub open spec fn kv_lookup(entries: Seq<(Seq<char>, JsonSpec)>, key: Seq<char>) -> Option<
    JsonSpec,
>
    decreases entries.len(),
{
    if entries.len() == 0 {
        None
    } else if entries[0].0 == key {
        Some(entries[0].1)
    } else {
        kv_lookup(entries.drop_first(), key)
    }
}

/// Update in an entry sequence: the first entry with the key is replaced;
/// if no entry has it, one is appended.
pub open spec fn kv_set(
    entries: Seq<(Seq<char>, JsonSpec)>,
    key: Seq<char>,
    val: JsonSpec,
) -> Seq<(Seq<char>, JsonSpec)>
    decreases entries.len(),
{
    if entries.len() == 0 {
        seq![(key, val)]
    } else if entries[0].0 == key {
        seq![(key, val)].add(entries.drop_first())
    } else {
        seq![entries[0]].add(kv_set(entries.drop_first(), key, val))
    }
}

impl JsonSpec {
    /// Object member lookup; `None` on a non-object.
    pub open spec fn get(self, key: Seq<char>) -> Option<JsonSpec> {
        if self is Obj {
            kv_lookup(self->Obj_0, key)
        } else {
            None
        }
    }
}

pub proof fn lemma_kv_lookup_at(entries: Seq<(Seq<char>, JsonSpec)>, key: Seq<char>, i: int)
    requires
        0 <= i < entries.len(),
        entries[i].0 == key,
        forall|j: int| 0 <= j < i ==> (#[trigger] entries[j]).0 != key,
    ensures
        kv_lookup(entries, key) == Some(entries[i].1),
    decreases entries.len(),
{
    if i > 0 {
        lemma_kv_lookup_at(entries.drop_first(), key, i - 1);
    }
}

pub proof fn lemma_kv_lookup_absent(entries: Seq<(Seq<char>, JsonSpec)>, key: Seq<char>)
    requires
        forall|j: int| 0 <= j < entries.len() ==> (#[trigger] entries[j]).0 != key,
    ensures
        kv_lookup(entries, key) is None,
    decreases entries.len(),
{
    if entries.len() > 0 {
        lemma_kv_lookup_absent(entries.drop_first(), key);
    }
}

/// Replacing the first entry that carries `key` is the same as `kv_set`.
pub proof fn lemma_kv_set_at(
    entries: Seq<(Seq<char>, JsonSpec)>,
    key: Seq<char>,
    val: JsonSpec,
    i: int,
)
    requires
        0 <= i < entries.len(),
        entries[i].0 == key,
        forall|j: int| 0 <= j < i ==> (#[trigger] entries[j]).0 != key,
    ensures
        kv_set(entries, key, val) == entries.update(i, (key, val)),
    decreases entries.len(),
{
    if i == 0 {
        assert(kv_set(entries, key, val) =~= entries.update(0, (key, val)));
    } else {
        lemma_kv_set_at(entries.drop_first(), key, val, i - 1);
        assert(kv_set(entries, key, val) =~= entries.update(i, (key, val)));
    }
}

/// Appending the entry when no entry carries `key` is the same as `kv_set`.
pub proof fn lemma_kv_set_absent(entries: Seq<(Seq<char>, JsonSpec)>, key: Seq<char>, val: JsonSpec)
    requires
        forall|j: int| 0 <= j < entries.len() ==> (#[trigger] entries[j]).0 != key,
    ensures
        kv_set(entries, key, val) == entries.push((key, val)),
    decreases entries.len(),
{
    if entries.len() == 0 {
        assert(kv_set(entries, key, val) =~= entries.push((key, val)));
    } else {
        lemma_kv_set_absent(entries.drop_first(), key, val);
        assert(kv_set(entries, key, val) =~= entries.push((key, val)));
    }
}

/// After `kv_set`, the key holds the new value and every other key is as before.
pub proof fn lemma_kv_set_get(
    entries: Seq<(Seq<char>, JsonSpec)>,
    key: Seq<char>,
    val: JsonSpec,
    probe: Seq<char>,
)
    ensures
        kv_lookup(kv_set(entries, key, val), probe) == if probe == key {
            Some(val)
        } else {
            kv_lookup(entries, probe)
        },
    decreases entries.len(),
{
    let s = kv_set(entries, key, val);
    if entries.len() == 0 {
        assert(s == seq![(key, val)]);
        assert(s.drop_first() =~= Seq::<(Seq<char>, JsonSpec)>::empty());
        if probe != key {
            assert(kv_lookup(s, probe) == kv_lookup(s.drop_first(), probe));
            assert(kv_lookup(s.drop_first(), probe) is None);
        }
    } else if entries[0].0 == key {
        assert(s == seq![(key, val)].add(entries.drop_first()));
        assert(s[0] == (key, val));
        assert(s.drop_first() =~= entries.drop_first());
        if probe != key {
            assert(kv_lookup(s, probe) == kv_lookup(entries.drop_first(), probe));
            assert(kv_lookup(entries, probe) == kv_lookup(entries.drop_first(), probe));
        }
    } else {
        lemma_kv_set_get(entries.drop_first(), key, val, probe);
        let rest = kv_set(entries.drop_first(), key, val);
        assert(s == seq![entries[0]].add(rest));
        assert(s[0] == entries[0]);
        assert(s.drop_first() =~= rest);
        if probe == entries[0].0 {
            assert(kv_lookup(s, probe) == Some(entries[0].1));
            assert(kv_lookup(entries, probe) == Some(entries[0].1));
        } else {
            assert(kv_lookup(s, probe) == kv_lookup(rest, probe));
            assert(kv_lookup(entries, probe) == kv_lookup(entries.drop_first(), probe));
        }
    }
}

impl JsonValue {
    /// The member of an object under `key`, or `None` when `self` is not
    /// an object or no entry carries the key.
    pub fn get<'a>(&'a self, key: &String) -> (r: Option<&'a JsonValue>)
        ensures
            match r {
                Some(x) => self@.get(key@) == Some(x@),
                None => self@.get(key@) is None,
            },
    {
        match self {
            JsonValue::Obj(entries) => {
                proof {
                    assert(self@->Obj_0 =~= entries_view(entries@));
                }
                let n = entries.len();
                let mut i: usize = 0;
                while i < n
                    invariant
                        n == entries@.len(),
                        0 <= i <= n,
                        self@ is Obj,
                        self@->Obj_0 == entries_view(entries@),
                        forall|j: int| 0 <= j < i ==> (#[trigger] entries@[j]).0@ != key@,
                    decreases n - i,
                {
                    if entries[i].0 == *key {
                        proof {
                            lemma_kv_lookup_at(self@->Obj_0, key@, i as int);
                        }
                        return Some(&entries[i].1);
                    }
                    i += 1;
                }
                proof {
                    lemma_kv_lookup_absent(self@->Obj_0, key@);
                }
                None
            },
            _ => None,
        }
    }

    /// A structurally equal copy of the value.
    #[verifier::loop_isolation(false)]
    pub fn duplicate(&self) -> (r: JsonValue)
        ensures
            r@ == self@,
        decreases self,
    {
        match self {
            JsonValue::Null => JsonValue::Null,
            JsonValue::Bool(b) => JsonValue::Bool(*b),
            JsonValue::Int(i) => JsonValue::Int(*i),
            JsonValue::Str(s) => JsonValue::Str(s.clone()),
            JsonValue::Arr(items) => {
                let n = items.len();
                let mut out: Vec<JsonValue> = Vec::new();
                let mut i: usize = 0;
                while i < n
                    invariant
                        n == items@.len(),
                        0 <= i <= n,
                        out@.len() == i,
                        forall|j: int| 0 <= j < i ==> (#[trigger] out@[j])@ == items@[j]@,
                    decreases n - i,
                {
                    let c = items[i].duplicate();
                    out.push(c);
                    i += 1;
                }
                let r = JsonValue::Arr(out);
                proof {
                    assert forall|j: int| 0 <= j < n implies r@->Arr_0[j] == self@->Arr_0[j] by {}
                    assert(r@->Arr_0 =~= self@->Arr_0);
                }
                r
            },
            JsonValue::Obj(entries) => {
                let n = entries.len();
                let mut out: Vec<(String, JsonValue)> = Vec::new();
                let mut i: usize = 0;
                while i < n
                    invariant
                        n == entries@.len(),
                        0 <= i <= n,
                        out@.len() == i,
                        forall|j: int| 0 <= j < i ==> (#[trigger] out@[j]).0@ == entries@[j].0@
                            && out@[j].1@ == entries@[j].1@,
                    decreases n - i,
                {
                    let k = entries[i].0.clone();
                    let c = entries[i].1.duplicate();
                    out.push((k, c));
                    i += 1;
                }
                let r = JsonValue::Obj(out);
                proof {
                    assert forall|j: int| 0 <= j < n implies r@->Obj_0[j] == self@->Obj_0[j] by {}
                    assert(r@->Obj_0 =~= self@->Obj_0);
                }
                r
            },
        }
    }
}

/// Sets `key` to `val` in an entry vector: the first entry with the key is
/// replaced, or the entry is appended when the key is absent.
pub fn set_entry(entries: &mut Vec<(String, JsonValue)>, key: String, val: JsonValue)
    ensures
        entries_view(final(entries)@) == kv_set(entries_view(old(entries)@), key@, val@),
{
    let n = entries.len();
    let mut i: usize = 0;
    while i < n
        invariant
            n == entries@.len(),
            0 <= i <= n,
            entries@ == old(entries)@,
            forall|j: int| 0 <= j < i ==> (#[trigger] entries@[j]).0@ != key@,
        decreases n - i,
    {
        if entries[i].0 == key {
            proof {
                lemma_kv_set_at(entries_view(entries@), key@, val@, i as int);
            }
            entries.remove(i);
            entries.insert(i, (key, val));
            proof {
                assert(entries_view(entries@) =~= kv_set(
                    entries_view(old(entries)@),
                    key@,
                    val@,
                ));
            }
            return ;
        }
        i += 1;
    }
    proof {
        lemma_kv_set_absent(entries_view(entries@), key@, val@);
    }
    entries.push((key, val));
    proof {
        assert(entries_view(entries@) =~= kv_set(entries_view(old(entries)@), key@, val@));
    }
}

} // verus!

