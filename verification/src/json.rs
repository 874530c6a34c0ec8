//! A JSON document model for the provider configuration logic: objects are
//! entry lists whose keys are unique, as in a JSON map.

use vstd::prelude::*;

verus! {

/// A JSON value. Numbers keep their textual form.
#[derive(Debug)]
pub enum Json {
    Null,
    Bool(bool),
    Number(String),
    Str(String),
    Array(Vec<Json>),
    Object(Vec<(String, Json)>),
}

/// The entries of an object.
pub type Entries = Vec<(String, Json)>;

/// `key` is at index `i` of `e` and at no earlier index.
pub open spec fn first_key_at(e: Seq<(String, Json)>, key: Seq<char>, i: int) -> bool {
    &&& 0 <= i < e.len()
    &&& e[i].0@ == key
    &&& forall|j: int| 0 <= j < i ==> (#[trigger] e[j]).0@ != key
}

/// No entry of `e` has `key`.
pub open spec fn no_key(e: Seq<(String, Json)>, key: Seq<char>) -> bool {
    forall|j: int| 0 <= j < e.len() ==> (#[trigger] e[j]).0@ != key
}

/// The index of the entry for `key`, as a map lookup finds it.
pub open spec fn key_index(e: Seq<(String, Json)>, key: Seq<char>) -> Option<int> {
    if exists|i: int| first_key_at(e, key, i) {
        Some(choose|i: int| first_key_at(e, key, i))
    } else {
        None
    }
}

/// The value stored under `key`.
pub open spec fn value_at_key(e: Seq<(String, Json)>, key: Seq<char>) -> Option<Json> {
    match key_index(e, key) {
        Some(i) => Some(e[i].1),
        None => None,
    }
}

pub proof fn lemma_key_index(e: Seq<(String, Json)>, key: Seq<char>, i: int)
    requires
        first_key_at(e, key, i),
    ensures
        key_index(e, key) == Some(i),
{
    let k = choose|k: int| first_key_at(e, key, k);
    assert(first_key_at(e, key, k));
    if k < i {
        assert(e[k].0@ != key);
    } else if i < k {
        assert(e[i].0@ != key);
    }
}

pub proof fn lemma_no_key_index(e: Seq<(String, Json)>, key: Seq<char>)
    requires
        no_key(e, key),
    ensures
        key_index(e, key) is None,
{
    if exists|i: int| first_key_at(e, key, i) {
        let i = choose|i: int| first_key_at(e, key, i);
        assert(e[i].0@ == key);
    }
}

/// `new` is `old` with the value under `key` replaced by `value`, or with
/// `(key, value)` appended when `old` has no entry for `key` (a map's
/// `insert`, keeping the entry's position).
pub open spec fn entries_set(
    old: Seq<(String, Json)>,
    key: Seq<char>,
    value: Json,
    new: Seq<(String, Json)>,
) -> bool {
    match key_index(old, key) {
        Some(i) => new == old.update(i, (old[i].0, value)),
        None => {
            &&& new.len() == old.len() + 1
            &&& new.drop_last() == old
            &&& new.last().0@ == key
            &&& new.last().1 == value
        },
    }
}

/// After setting `key`, looking `key` up gives the value set.
pub proof fn lemma_set_then_get(
    old: Seq<(String, Json)>,
    key: Seq<char>,
    value: Json,
    new: Seq<(String, Json)>,
)
    requires
        entries_set(old, key, value, new),
    ensures
        value_at_key(new, key) == Some(value),
{
    match key_index(old, key) {
        Some(i) => {
            lemma_key_index_sound(old, key);
            assert forall|j: int| 0 <= j < i implies (#[trigger] new[j]).0@ != key by {
                assert(new[j] == old[j]);
            }
            assert(first_key_at(new, key, i));
            lemma_key_index(new, key, i);
        },
        None => {
            lemma_key_index_complete(old, key);
            let n = old.len() as int;
            assert forall|j: int| 0 <= j < n implies (#[trigger] new[j]).0@ != key by {
                assert(new[j] == new.drop_last()[j]);
                assert(old[j].0@ != key);
            }
            assert(first_key_at(new, key, n));
            lemma_key_index(new, key, n);
        },
    }
}

pub proof fn lemma_key_index_sound(e: Seq<(String, Json)>, key: Seq<char>)
    ensures
        key_index(e, key) matches Some(i) ==> first_key_at(e, key, i),
{
}

pub proof fn lemma_key_index_complete(e: Seq<(String, Json)>, key: Seq<char>)
    ensures
        key_index(e, key) is None ==> no_key(e, key),
{
    if key_index(e, key) is None && !no_key(e, key) {
        let k = choose|k: int| 0 <= k < e.len() && (#[trigger] e[k]).0@ == key;
        lemma_first_exists(e, key, k);
    }
}

proof fn lemma_first_exists(e: Seq<(String, Json)>, key: Seq<char>, k: int)
    requires
        0 <= k < e.len(),
        e[k].0@ == key,
    ensures
        exists|i: int| first_key_at(e, key, i),
    decreases k,
{
    if exists|j: int| 0 <= j < k && (#[trigger] e[j]).0@ == key {
        let j = choose|j: int| 0 <= j < k && (#[trigger] e[j]).0@ == key;
        lemma_first_exists(e, key, j);
    } else {
        assert(first_key_at(e, key, k));
    }
}

/// Finds the entry for `key`.
pub fn find_key(entries: &Entries, key: &str) -> (r: Option<usize>)
    ensures
        r matches Some(i) ==> first_key_at(entries@, key@, i as int),
        r is None ==> no_key(entries@, key@),
        r == (match key_index(entries@, key@) {
            Some(i) => Some(i as usize),
            None => None,
        }),
{
    let mut i: usize = 0;
    while i < entries.len()
        invariant
            i <= entries@.len(),
            forall|j: int| 0 <= j < i ==> (#[trigger] entries@[j]).0@ != key@,
        decreases entries@.len() - i,
    {
        if str_eq(entries[i].0.as_str(), key) {
            proof {
                assert(first_key_at(entries@, key@, i as int));
                lemma_key_index(entries@, key@, i as int);
            }
            return Some(i);
        }
        i = i + 1;
    }
    proof {
        lemma_no_key_index(entries@, key@);
    }
    None
}

/// Character-wise string equality.
pub fn str_eq(a: &str, b: &str) -> (r: bool)
    ensures
        r == (a@ == b@),
{
    let n = a.unicode_len();
    if n != b.unicode_len() {
        return false;
    }
    let mut i: usize = 0;
    while i < n
        invariant
            n == a@.len(),
            n == b@.len(),
            i <= n,
            forall|j: int| 0 <= j < i ==> a@[j] == b@[j],
        decreases n - i,
    {
        if a.get_char(i) != b.get_char(i) {
            return false;
        }
        i = i + 1;
    }
    assert(a@ =~= b@);
    true
}

/// Sets `key` to `value` in an object's entries.
pub fn set_entry(entries: &mut Entries, key: &str, value: Json)
    ensures
        entries_set(old(entries)@, key@, value, final(entries)@),
{
    match find_key(entries, key) {
        Some(i) => {
            let (k, _old_value) = entries.remove(i);
            entries.insert(i, (k, value));
            assert(final(entries)@ =~= old(entries)@.update(i as int, (old(entries)@[i as int].0, value)));
        },
        None => {
            entries.push((key.to_owned(), value));
            assert(final(entries)@.drop_last() =~= old(entries)@);
        },
    }
}

/// The entries of the object stored under `key`: none when the key is
/// absent, `Err` when the value there is not an object.
pub open spec fn object_child(e: Seq<(String, Json)>, key: Seq<char>) -> Result<
    Seq<(String, Json)>,
    (),
> {
    match value_at_key(e, key) {
        None => Ok(Seq::empty()),
        Some(Json::Object(v)) => Ok(v@),
        Some(_) => Err(()),
    }
}

/// Where a detached child object came from.
pub struct ChildSlot {
    pub index: usize,
    pub key: String,
}

/// Takes the object stored under `key` out of `entries` (an absent key
/// gives an empty object); fails when the value there is not an object.
pub fn detach_object(entries: &mut Entries, key: &str) -> (r: Result<(Option<ChildSlot>, Entries), ()>)
    ensures
        match object_child(old(entries)@, key@) {
            Err(()) => r is Err,
            Ok(child) => r matches Ok((slot, c)) && c@ == child && match slot {
                Some(s) => key_index(old(entries)@, key@) == Some(s.index as int) && s.key
                    == old(entries)@[s.index as int].0 && final(entries)@ == old(entries)@.remove(
                    s.index as int,
                ),
                None => key_index(old(entries)@, key@) is None && final(entries)@ == old(
                    entries,
                )@,
            },
        },
{
    match find_key(entries, key) {
        None => Ok((None, Vec::new())),
        Some(i) => {
            if !matches!(entries[i].1, Json::Object(_)) {
                return Err(());
            }
            let (k, v) = entries.remove(i);
            match v {
                Json::Object(child) => Ok((Some(ChildSlot { index: i, key: k }), child)),
                _ => Err(()),
            }
        },
    }
}

/// Puts a value back where `detach_object` took the old one from, or
/// appends it under `key` when there was none.
pub fn attach_value(entries: &mut Entries, slot: Option<ChildSlot>, key: &str, value: Json)
    requires
        match slot {
            Some(s) => s.index <= old(entries)@.len(),
            None => true,
        },
    ensures
        match slot {
            Some(s) => final(entries)@ == old(entries)@.insert(s.index as int, (s.key, value)),
            None => final(entries)@ == old(entries)@.push((final(entries)@.last().0, value))
                && final(entries)@.last().0@ == key@,
        },
{
    match slot {
        Some(s) => {
            entries.insert(s.index, (s.key, value));
        },
        None => {
            entries.push((key.to_owned(), value));
        },
    }
}

} // verus!
