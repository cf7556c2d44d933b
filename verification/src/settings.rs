//! The typed key-value settings store handed to an extension at initialize
//! time. Values are text, integers, floats (carried as IEEE 754 bit
//! patterns, which the store never interprets), booleans, lists and
//! dictionaries. Reading a key as the wrong type yields "not present", the
//! same as a missing key. The lock that shares the store between tasks
//! lives outside the library.

use vstd::prelude::*;
use crate::error::ExtensionError;

verus! {

broadcast use vstd::std_specs::vec::group_vec_axioms, vstd::seq::axiom_seq_index_decreases;

/// A setting value.
#[derive(Debug)]
pub enum SettingValue {
    Text(String),
    Integer(i64),
    Float(u64),
    Boolean(bool),
    List(Vec<SettingValue>),
    Dict(Vec<(String, SettingValue)>),
}

/// The mathematical shape of a setting value.
pub enum SettingView {
    Text(Seq<char>),
    Integer(i64),
    Float(u64),
    Boolean(bool),
    List(Seq<SettingView>),
    Dict(Seq<(Seq<char>, SettingView)>),
}

/// The view of a value: texts become character sequences, containers become
/// sequences of views.
pub open spec fn value_view(v: SettingValue) -> SettingView
    decreases v,
{
    match v {
        SettingValue::Text(s) => SettingView::Text(s@),
        SettingValue::Integer(i) => SettingView::Integer(i),
        SettingValue::Float(bits) => SettingView::Float(bits),
        SettingValue::Boolean(b) => SettingView::Boolean(b),
        SettingValue::List(vs) => SettingView::List(list_view(vs@)),
        SettingValue::Dict(entries) => SettingView::Dict(dict_view(entries@)),
    }
}

/// The views of the elements, in order.
pub open spec fn list_view(vs: Seq<SettingValue>) -> Seq<SettingView>
    decreases vs,
{
    if vs.len() == 0 {
        Seq::empty()
    } else {
        list_view(vs.drop_last()).push(value_view(vs.last()))
    }
}

/// The views of the entries, in order.
pub open spec fn dict_view(entries: Seq<(String, SettingValue)>) -> Seq<(Seq<char>, SettingView)>
    decreases entries,
{
    if entries.len() == 0 {
        Seq::empty()
    } else {
        dict_view(entries.drop_last()).push(
            (entries.last().0@, value_view(entries.last().1)),
        )
    }
}

pub proof fn lemma_list_view_index(vs: Seq<SettingValue>)
    ensures
        list_view(vs).len() == vs.len(),
        forall|i: int| 0 <= i < vs.len() ==> list_view(vs)[i] == value_view(#[trigger] vs[i]),
    decreases vs,
{
    if vs.len() > 0 {
        lemma_list_view_index(vs.drop_last());
        assert forall|i: int| 0 <= i < vs.len() implies list_view(vs)[i] == value_view(
            #[trigger] vs[i],
        ) by {
            if i < vs.len() - 1 {
                assert(vs.drop_last()[i] == vs[i]);
                assert(list_view(vs)[i] == list_view(vs.drop_last())[i]);
            } else {
                assert(vs.last() == vs[i]);
            }
        }
    }
}

pub proof fn lemma_dict_view_index(entries: Seq<(String, SettingValue)>)
    ensures
        dict_view(entries).len() == entries.len(),
        forall|i: int|
            0 <= i < entries.len() ==> dict_view(entries)[i] == ((#[trigger] entries[i]).0@,
            value_view(entries[i].1)),
    decreases entries,
{
    if entries.len() > 0 {
        lemma_dict_view_index(entries.drop_last());
        assert forall|i: int| 0 <= i < entries.len() implies dict_view(entries)[i] == ((
        #[trigger] entries[i]).0@, value_view(entries[i].1)) by {
            if i < entries.len() - 1 {
                assert(entries.drop_last()[i] == entries[i]);
                assert(dict_view(entries)[i] == dict_view(entries.drop_last())[i]);
            } else {
                assert(entries.last() == entries[i]);
            }
        }
    }
}

impl View for SettingValue {
    type V = SettingView;

    open spec fn view(&self) -> SettingView {
        value_view(*self)
    }
}

impl Clone for SettingValue {
    /// A deep copy with the same view.
    fn clone(&self) -> (r: Self)
        ensures
            r@ == self@,
        decreases *self,
    {
        match self {
            SettingValue::Text(s) => SettingValue::Text(s.clone()),
            SettingValue::Integer(i) => SettingValue::Integer(*i),
            SettingValue::Float(bits) => SettingValue::Float(*bits),
            SettingValue::Boolean(b) => SettingValue::Boolean(*b),
            SettingValue::List(vs) => {
                let cloned = clone_values(vs);
                proof {
                    lemma_list_view_index(cloned@);
                    lemma_list_view_index(vs@);
                    assert forall|i: int|
                        0 <= i < list_view(cloned@).len() implies list_view(cloned@)[i]
                        == list_view(vs@)[i] by {
                        assert(list_view(cloned@)[i] == value_view(cloned@[i]));
                        assert(list_view(vs@)[i] == value_view(vs@[i]));
                    }
                    assert(list_view(cloned@) =~= list_view(vs@));
                }
                SettingValue::List(cloned)
            },
            SettingValue::Dict(entries) => {
                let cloned = clone_entries(entries);
                proof {
                    lemma_dict_view_index(cloned@);
                    lemma_dict_view_index(entries@);
                    assert forall|i: int|
                        0 <= i < dict_view(cloned@).len() implies dict_view(cloned@)[i]
                        == dict_view(entries@)[i] by {
                        assert(dict_view(cloned@)[i] == (cloned@[i].0@, value_view(cloned@[i].1)));
                        assert(dict_view(entries@)[i] == (
                            entries@[i].0@,
                            value_view(entries@[i].1),
                        ));
                    }
                    assert(dict_view(cloned@) =~= dict_view(entries@));
                }
                SettingValue::Dict(cloned)
            },
        }
    }
}

/// Deep copies of all elements, element views preserved.
fn clone_values(vs: &Vec<SettingValue>) -> (r: Vec<SettingValue>)
    ensures
        r@.len() == vs@.len(),
        forall|i: int| 0 <= i < vs@.len() ==> value_view(#[trigger] r@[i]) == value_view(vs@[i]),
    decreases vs@,
{
    let mut r: Vec<SettingValue> = Vec::new();
    let mut i: usize = 0;
    while i < vs.len()
        invariant
            0 <= i <= vs@.len(),
            r@.len() == i,
            forall|k: int|
                0 <= k < i ==> value_view(#[trigger] r@[k]) == value_view(vs@[k]),
        decreases vs@.len() - i,
    {
        r.push(vs[i].clone());
        i = i + 1;
    }
    r
}

/// Deep copies of all entries, key texts and value views preserved.
fn clone_entries(entries: &Vec<(String, SettingValue)>) -> (r: Vec<(String, SettingValue)>)
    ensures
        r@.len() == entries@.len(),
        forall|i: int|
            0 <= i < entries@.len() ==> (#[trigger] r@[i]).0@ == entries@[i].0@ && value_view(
                r@[i].1,
            ) == value_view(entries@[i].1),
    decreases entries@,
{
    let mut r: Vec<(String, SettingValue)> = Vec::new();
    let mut i: usize = 0;
    while i < entries.len()
        invariant
            0 <= i <= entries@.len(),
            r@.len() == i,
            forall|k: int|
                0 <= k < i ==> (#[trigger] r@[k]).0@ == entries@[k].0@ && value_view(r@[k].1)
                    == value_view(entries@[k].1),
        decreases entries@.len() - i,
    {
        let key = entries[i].0.clone();
        let value = entries[i].1.clone();
        r.push((key, value));
        i = i + 1;
    }
    r
}

/// The mapping described by a list of entries; a later entry overrides an
/// earlier one with the same key.
pub open spec fn map_of(entries: Seq<(String, SettingValue)>) -> Map<Seq<char>, SettingView>
    decreases entries.len(),
{
    if entries.len() == 0 {
        Map::empty()
    } else {
        map_of(entries.drop_last()).insert(entries.last().0@, value_view(entries.last().1))
    }
}

/// With pairwise distinct keys, the mapping contains exactly the listed
/// keys, each bound to its listed value.
proof fn lemma_map_of_props(entries: Seq<(String, SettingValue)>)
    requires
        forall|i: int, j: int| 0 <= i < j < entries.len() ==> entries[i].0@ != entries[j].0@,
    ensures
        forall|k: Seq<char>|
            map_of(entries).contains_key(k) <==> exists|j: int|
                0 <= j < entries.len() && (#[trigger] entries[j]).0@ == k,
        forall|j: int|
            0 <= j < entries.len() ==> map_of(entries)[(#[trigger] entries[j]).0@] == entries[j].1@,
    decreases entries.len(),
{
    if entries.len() > 0 {
        let rest = entries.drop_last();
        lemma_map_of_props(rest);
        assert forall|k: Seq<char>| map_of(entries).contains_key(k) implies exists|j: int|
            0 <= j < entries.len() && (#[trigger] entries[j]).0@ == k by {
            if k != entries.last().0@ {
                assert(map_of(rest).contains_key(k));
                let j = choose|j: int| 0 <= j < rest.len() && (#[trigger] rest[j]).0@ == k;
                assert(rest[j] == entries[j]);
                assert(entries[j].0@ == k);
            } else {
                assert(entries[entries.len() - 1].0@ == k);
            }
        }
        assert forall|k: Seq<char>|
            (exists|j: int| 0 <= j < entries.len() && (#[trigger] entries[j]).0@ == k) implies map_of(
            entries,
        ).contains_key(k) by {
            let j = choose|j: int| 0 <= j < entries.len() && (#[trigger] entries[j]).0@ == k;
            if j < entries.len() - 1 {
                assert(rest[j].0@ == k);
            }
        }
        assert forall|j: int| 0 <= j < entries.len() implies map_of(entries)[(
        #[trigger] entries[j]).0@] == entries[j].1@ by {
            if j < entries.len() - 1 {
                assert(rest[j] == entries[j]);
                assert(entries[j].0@ != entries.last().0@);
            }
        }
    }
}

/// The settings store: a mapping from key text to value, backed by a list
/// of entries with pairwise distinct keys.
#[derive(Debug)]
pub struct Settings {
    values: Vec<(String, SettingValue)>,
}

impl View for Settings {
    type V = Map<Seq<char>, SettingView>;

    closed spec fn view(&self) -> Map<Seq<char>, SettingView> {
        map_of(self.values@)
    }
}

impl Settings {
    /// Pairwise distinct keys; established by `new` and kept by every
    /// method.
    pub closed spec fn wf(self) -> bool {
        forall|i: int, j: int|
            0 <= i < j < self.values@.len() ==> self.values@[i].0@ != self.values@[j].0@
    }

    /// An empty store.
    pub fn new() -> (s: Self)
        ensures
            s.wf(),
            s@ == Map::<Seq<char>, SettingView>::empty(),
    {
        Settings { values: Vec::new() }
    }

    /// Binds `key` to `value`, replacing any earlier binding.
    pub fn set(&mut self, key: &str, value: SettingValue) -> (r: Result<(), ExtensionError>)
        requires
            old(self).wf(),
        ensures
            final(self).wf(),
            r is Ok,
            final(self)@ == old(self)@.insert(key@, value@),
    {
        proof {
            lemma_map_of_props(self.values@);
        }
        let key_string = key.to_owned();
        let mut j: usize = 0;
        while j < self.values.len()
            invariant
                self.wf(),
                self.values@ == old(self).values@,
                key_string@ == key@,
                0 <= j <= self.values@.len(),
                forall|k: int| 0 <= k < j ==> self.values@[k].0@ != key@,
            decreases self.values@.len() - j,
        {
            if self.values[j].0.eq(&key_string) {
                let ghost pre = self.values@;
                let replacement = (self.values[j].0.clone(), value);
                self.values[j] = replacement;
                proof {
                    let new_entry = self.values@[j as int];
                    assert(self.values@ == pre.update(j as int, new_entry));
                    assert(new_entry.0@ == key@);
                    lemma_map_of_update(pre, j as int, new_entry);
                    assert forall|a: int, b: int|
                        0 <= a < b < self.values@.len() implies self.values@[a].0@
                        != self.values@[b].0@ by {
                        assert(pre[a].0@ != pre[b].0@);
                    }
                }
                return Ok(());
            }
            j = j + 1;
        }
        self.values.push((key.to_owned(), value));
        proof {
            assert(self.values@.drop_last() =~= old(self).values@);
            assert(self.values@.last().0@ == key@);
            assert forall|a: int, b: int|
                0 <= a < b < self.values@.len() implies self.values@[a].0@ != self.values@[b].0@ by {
                if b < self.values@.len() - 1 {
                    assert(old(self).values@[a].0@ != old(self).values@[b].0@);
                } else {
                    assert(self.values@[a] == old(self).values@[a]);
                }
            }
        }
        Ok(())
    }

    /// The value bound to `key`, as a deep copy, or nothing.
    pub fn get(&self, key: &str) -> (r: Result<Option<SettingValue>, ExtensionError>)
        requires
            self.wf(),
        ensures
            r matches Ok(o) && (o matches Some(v) ==> self@.contains_key(key@) && v@
                == self@[key@]),
            r matches Ok(o) && (o is None ==> !self@.contains_key(key@)),
    {
        proof {
            lemma_map_of_props(self.values@);
        }
        let key_string = key.to_owned();
        let mut j: usize = 0;
        while j < self.values.len()
            invariant
                key_string@ == key@,
                self.wf(),
                0 <= j <= self.values@.len(),
                forall|k: int| 0 <= k < j ==> self.values@[k].0@ != key@,
            decreases self.values@.len() - j,
        {
            if self.values[j].0.eq(&key_string) {
                proof {
                    lemma_map_of_props(self.values@);
                }
                return Ok(Some(self.values[j].1.clone()));
            }
            j = j + 1;
        }
        Ok(None)
    }

    /// The text bound to `key`; nothing when the key is absent or bound to
    /// a value of another type.
    pub fn get_string(&self, key: &str) -> (r: Result<Option<String>, ExtensionError>)
        requires
            self.wf(),
        ensures
            r matches Ok(o) && (o matches Some(s) ==> self@.contains_key(key@) && (self@[key@]
                matches SettingView::Text(t) && s@ == t)),
            r matches Ok(o) && (o is None ==> !self@.contains_key(key@) || !(self@[key@]
                is Text)),
    {
        match self.get(key)? {
            Some(SettingValue::Text(s)) => Ok(Some(s)),
            Some(_) => Ok(None),
            None => Ok(None),
        }
    }

    /// The integer bound to `key`; nothing when absent or of another type.
    pub fn get_integer(&self, key: &str) -> (r: Result<Option<i64>, ExtensionError>)
        requires
            self.wf(),
        ensures
            r matches Ok(o) && (o matches Some(i) ==> self@.contains_key(key@) && self@[key@]
                == SettingView::Integer(i)),
            r matches Ok(o) && (o is None ==> !self@.contains_key(key@) || !(self@[key@]
                is Integer)),
    {
        match self.get(key)? {
            Some(SettingValue::Integer(i)) => Ok(Some(i)),
            Some(_) => Ok(None),
            None => Ok(None),
        }
    }

    /// The float bits bound to `key`; nothing when absent or of another
    /// type. The bits are the IEEE 754 representation the caller stored.
    pub fn get_float(&self, key: &str) -> (r: Result<Option<u64>, ExtensionError>)
        requires
            self.wf(),
        ensures
            r matches Ok(o) && (o matches Some(bits) ==> self@.contains_key(key@) && self@[key@]
                == SettingView::Float(bits)),
            r matches Ok(o) && (o is None ==> !self@.contains_key(key@) || !(self@[key@]
                is Float)),
    {
        match self.get(key)? {
            Some(SettingValue::Float(bits)) => Ok(Some(bits)),
            Some(_) => Ok(None),
            None => Ok(None),
        }
    }

    /// The boolean bound to `key`; nothing when absent or of another type.
    pub fn get_boolean(&self, key: &str) -> (r: Result<Option<bool>, ExtensionError>)
        requires
            self.wf(),
        ensures
            r matches Ok(o) && (o matches Some(b) ==> self@.contains_key(key@) && self@[key@]
                == SettingView::Boolean(b)),
            r matches Ok(o) && (o is None ==> !self@.contains_key(key@) || !(self@[key@]
                is Boolean)),
    {
        match self.get(key)? {
            Some(SettingValue::Boolean(b)) => Ok(Some(b)),
            Some(_) => Ok(None),
            None => Ok(None),
        }
    }

    /// Copies every binding of `other` into this store; on a key collision
    /// the incoming binding wins.
    pub fn merge(&mut self, other: &Settings) -> (r: Result<(), ExtensionError>)
        requires
            old(self).wf(),
            other.wf(),
        ensures
            final(self).wf(),
            r is Ok,
            final(self)@ == old(self)@.union_prefer_right(other@),
    {
        proof {
            lemma_map_of_props(other.values@);
        }
        let mut i: usize = 0;
        while i < other.values.len()
            invariant
                self.wf(),
                other.wf(),
                0 <= i <= other.values@.len(),
                self@ == old(self)@.union_prefer_right(map_of(other.values@.take(i as int))),
            decreases other.values@.len() - i,
        {
            let key_string = other.values[i].0.clone();
            let value = other.values[i].1.clone();
            let ghost pre = self@;
            match self.set(key_string.as_str(), value) {
                Ok(()) => {},
                Err(e) => {
                    return Err(e);
                },
            }
            proof {
                let t1 = other.values@.take(i as int);
                let t2 = other.values@.take(i as int + 1);
                assert(t2.drop_last() =~= t1);
                assert(t2.last() == other.values@[i as int]);
                assert(self@ =~= old(self)@.union_prefer_right(map_of(t2)));
            }
            i = i + 1;
        }
        proof {
            assert(other.values@.take(other.values@.len() as int) =~= other.values@);
        }
        Ok(())
    }
}

impl Default for Settings {
    fn default() -> (s: Self)
        ensures
            s.wf(),
            s@ == Map::<Seq<char>, SettingView>::empty(),
    {
        Settings::new()
    }
}

/// Replacing the entry at `j` by one with the same key text rebinds that
/// key in the mapping.
proof fn lemma_map_of_update(
    entries: Seq<(String, SettingValue)>,
    j: int,
    entry: (String, SettingValue),
)
    requires
        0 <= j < entries.len(),
        entry.0@ == entries[j].0@,
        forall|i: int, k: int| 0 <= i < k < entries.len() ==> entries[i].0@ != entries[k].0@,
    ensures
        map_of(entries.update(j, entry)) == map_of(entries).insert(entry.0@, entry.1@),
    decreases entries.len(),
{
    let updated = entries.update(j, entry);
    if j == entries.len() - 1 {
        assert(updated.drop_last() =~= entries.drop_last());
        assert(updated.last() == entry);
        lemma_map_of_props(entries);
        assert(map_of(entries.update(j, entry)) =~= map_of(entries).insert(entry.0@, entry.1@));
    } else {
        assert(updated.drop_last() =~= entries.drop_last().update(j, entry));
        assert(updated.last() == entries.last());
        lemma_map_of_update(entries.drop_last(), j, entry);
        assert(map_of(updated) == map_of(entries.drop_last().update(j, entry)).insert(
            entries.last().0@,
            entries.last().1@,
        ));
        assert(entries.last().0@ != entry.0@);
        assert(map_of(entries.drop_last()).insert(entry.0@, entry.1@).insert(
            entries.last().0@,
            entries.last().1@,
        ) =~= map_of(entries.drop_last()).insert(entries.last().0@, entries.last().1@).insert(
            entry.0@,
            entry.1@,
        ));
        assert(map_of(entries.update(j, entry)) =~= map_of(entries).insert(entry.0@, entry.1@));
    }
}

} // verus!
