//! Values as the presentation layer hands them over, and the description of
//! an entity: a sparse map from component names to such values.
use vstd::prelude::*;
use crate::components::ShaderParams;
use crate::scalar::Scalar;

verus! {

/// A point or a direction in 2D space, as the presentation layer has it.
#[derive(Clone, Copy, Debug, PartialEq, Eq, Structural)]
pub struct Vector2 {
    pub x: Scalar,
    pub y: Scalar,
}

/// A value of the presentation layer: one of a few shapes.
#[derive(Debug, PartialEq, Eq)]
pub enum Value {
    /// No value.
    Nil,
    Bool(bool),
    Int(i64),
    Real(Scalar),
    Vector2(Vector2),
    Text(String),
    /// An object of the presentation layer, by its identifier there.
    Object(i64),
    /// The two colours of a shader.
    Colors(ShaderParams),
}

impl Value {
    /// The vector, if the value is one.
    pub fn try_to_vector2(&self) -> (r: Option<Vector2>)
        ensures
            r == (match *self {
                Value::Vector2(v) => Some(v),
                _ => None,
            }),
    {
        match self {
            Value::Vector2(v) => Some(*v),
            _ => None,
        }
    }

    /// The integer, if the value is one.
    pub fn try_to_i64(&self) -> (r: Option<i64>)
        ensures
            r == (match *self {
                Value::Int(n) => Some(n),
                _ => None,
            }),
    {
        match self {
            Value::Int(n) => Some(*n),
            _ => None,
        }
    }

    /// The real number, if the value is one.
    pub fn try_to_real(&self) -> (r: Option<Scalar>)
        ensures
            r == (match *self {
                Value::Real(x) => Some(x),
                _ => None,
            }),
    {
        match self {
            Value::Real(x) => Some(*x),
            _ => None,
        }
    }

    /// The identifier of the object, if the value is one.
    pub fn try_to_object(&self) -> (r: Option<i64>)
        ensures
            r == (match *self {
                Value::Object(id) => Some(id),
                _ => None,
            }),
    {
        match self {
            Value::Object(id) => Some(*id),
            _ => None,
        }
    }

    /// An equal value of its own.
    pub fn duplicate(&self) -> (r: Value)
        ensures
            r == *self,
    {
        match self {
            Value::Nil => Value::Nil,
            Value::Bool(b) => Value::Bool(*b),
            Value::Int(n) => Value::Int(*n),
            Value::Real(x) => Value::Real(*x),
            Value::Vector2(v) => Value::Vector2(*v),
            Value::Text(s) => Value::Text(s.clone()),
            Value::Object(id) => Value::Object(*id),
            Value::Colors(c) => Value::Colors(*c),
        }
    }
}

/// One entry of a list that is read as a map: a name and the value under
/// it.
#[derive(Debug)]
pub struct Entry<V> {
    pub key: String,
    pub value: V,
}

/// The map that a sequence of entries stands for. A later entry overrides
/// an earlier one with the same name.
pub open spec fn entries_map<V>(entries: Seq<Entry<V>>) -> Map<Seq<char>, V>
    decreases entries.len(),
{
    if entries.len() == 0 {
        Map::empty()
    } else {
        entries_map(entries.drop_last()).insert(entries.last().key@, entries.last().value)
    }
}

/// A name that no entry has is not in the map.
pub proof fn lemma_entries_absent<V>(entries: Seq<Entry<V>>, key: Seq<char>)
    requires
        forall|j: int| 0 <= j < entries.len() ==> entries[j].key@ != key,
    ensures
        !entries_map(entries).contains_key(key),
    decreases entries.len(),
{
    if entries.len() > 0 {
        let front = entries.drop_last();
        assert forall|j: int| 0 <= j < front.len() implies front[j].key@ != key by {
            assert(front[j] == entries[j]);
        }
        lemma_entries_absent(front, key);
        assert(entries[entries.len() - 1].key@ != key);
    }
}

/// The map has the value of the last entry with a name.
pub proof fn lemma_entries_last<V>(entries: Seq<Entry<V>>, key: Seq<char>, i: int)
    requires
        0 <= i < entries.len(),
        entries[i].key@ == key,
        forall|j: int| i < j < entries.len() ==> entries[j].key@ != key,
    ensures
        entries_map(entries).contains_key(key),
        entries_map(entries)[key] == entries[i].value,
    decreases entries.len(),
{
    if i < entries.len() - 1 {
        let front = entries.drop_last();
        assert(front[i] == entries[i]);
        assert forall|j: int| i < j < front.len() implies front[j].key@ != key by {
            assert(front[j] == entries[j]);
        }
        lemma_entries_last(front, key, i);
        assert(entries[entries.len() - 1].key@ != key);
    }
}

/// Replacing the value of the last entry with a name is putting the value
/// under the name.
pub proof fn lemma_entries_replace<V>(entries: Seq<Entry<V>>, i: int, entry: Entry<V>)
    requires
        0 <= i < entries.len(),
        entries[i].key@ == entry.key@,
        forall|j: int| i < j < entries.len() ==> entries[j].key@ != entry.key@,
    ensures
        entries_map(entries.update(i, entry)) == entries_map(entries).insert(
            entry.key@,
            entry.value,
        ),
    decreases entries.len(),
{
    let changed = entries.update(i, entry);
    let front = entries.drop_last();
    if i == entries.len() - 1 {
        assert(changed.drop_last() =~= front);
        assert(entries_map(changed) =~= entries_map(entries).insert(entry.key@, entry.value));
    } else {
        assert(front[i] == entries[i]);
        assert forall|j: int| i < j < front.len() implies front[j].key@ != entry.key@ by {
            assert(front[j] == entries[j]);
        }
        lemma_entries_replace(front, i, entry);
        assert(changed.drop_last() =~= front.update(i, entry));
        assert(changed.last() == entries.last());
        assert(entries[entries.len() - 1].key@ != entry.key@);
        assert(entries_map(changed) =~= entries_map(entries).insert(entry.key@, entry.value));
    }
}

/// An entry put before others is overridden by any of them with its name.
pub proof fn lemma_entries_prepend<V>(first: Entry<V>, rest: Seq<Entry<V>>)
    ensures
        entries_map(seq![first] + rest) == (if entries_map(rest).contains_key(first.key@) {
            entries_map(rest)
        } else {
            entries_map(rest).insert(first.key@, first.value)
        }),
    decreases rest.len(),
{
    let all = seq![first] + rest;
    if rest.len() == 0 {
        assert(all.len() == 1);
        assert(all.drop_last() =~= rest);
        assert(all.last() == first);
        assert(entries_map(rest) =~= Map::<Seq<char>, V>::empty());
        assert(entries_map(all) == entries_map(all.drop_last()).insert(
            all.last().key@,
            all.last().value,
        ));
    } else {
        lemma_entries_prepend(first, rest.drop_last());
        assert(all.drop_last() =~= seq![first] + rest.drop_last());
        assert(all.last() == rest.last());
        assert(entries_map(all) =~= (if entries_map(rest).contains_key(first.key@) {
            entries_map(rest)
        } else {
            entries_map(rest).insert(first.key@, first.value)
        }));
    }
}

/// Where a name stands last in a list.
pub fn find_last<V>(entries: &Vec<Entry<V>>, key: &String) -> (r: Option<usize>)
    ensures
        r.is_some() == entries_map(entries@).contains_key(key@),
        r.is_some() ==> r.unwrap() < entries@.len() && entries@[r.unwrap() as int].key@ == key@
            && entries_map(entries@)[key@] == entries@[r.unwrap() as int].value && forall|j: int|
            r.unwrap() < j < entries@.len() ==> entries@[j].key@ != key@,
{
    let mut i: usize = entries.len();
    while i > 0
        invariant
            i <= entries@.len(),
            forall|j: int| i <= j < entries@.len() ==> entries@[j].key@ != key@,
        decreases i,
    {
        i -= 1;
        if entries[i].key == *key {
            proof {
                lemma_entries_last(entries@, key@, i as int);
            }
            return Some(i);
        }
    }
    proof {
        lemma_entries_absent(entries@, key@);
    }
    None
}

/// Puts a value under a name in a list, in place of one that may be there.
/// The result says whether one was there.
pub fn put_entry<V>(entries: &mut Vec<Entry<V>>, key: String, value: V) -> (replaced: bool)
    ensures
        replaced == entries_map(old(entries)@).contains_key(key@),
        entries_map(final(entries)@) == entries_map(old(entries)@).insert(key@, value),
{
    match find_last(entries, &key) {
        Some(i) => {
            let entry = Entry { key, value };
            proof {
                lemma_entries_replace(entries@, i as int, entry);
            }
            entries[i] = entry;
            true
        },
        None => {
            entries.push(Entry { key, value });
            assert(entries@.drop_last() =~= old(entries)@);
            false
        },
    }
}

/// The description of an entity: component names and the values under them.
/// A name that is absent means that the entity has no such component.
#[derive(Debug)]
pub struct Description {
    pub entries: Vec<Entry<Value>>,
}

impl Description {
    /// The description as a map from names to values.
    pub open spec fn view(&self) -> Map<Seq<char>, Value> {
        entries_map(self.entries@)
    }

    /// The description without entries.
    pub fn new() -> (d: Self)
        ensures
            d@ == Map::<Seq<char>, Value>::empty(),
            d.entries@.len() == 0,
    {
        Description { entries: Vec::new() }
    }

    /// The value under a name, if the description has the name.
    pub fn get(&self, key: &str) -> (r: Option<&Value>)
        ensures
            r.is_some() == self@.contains_key(key@),
            r.is_some() ==> *r.unwrap() == self@[key@],
    {
        let owned = key.to_owned();
        match find_last(&self.entries, &owned) {
            Some(i) => Some(&self.entries[i].value),
            None => None,
        }
    }

    /// Whether the description has the name.
    pub fn contains_key(&self, key: &str) -> (r: bool)
        ensures
            r == self@.contains_key(key@),
    {
        let owned = key.to_owned();
        find_last(&self.entries, &owned).is_some()
    }

    /// Puts a value under a name, in place of one that may be there.
    pub fn insert(&mut self, key: String, value: Value)
        ensures
            final(self)@ == old(self)@.insert(key@, value),
    {
        put_entry(&mut self.entries, key, value);
    }

    /// An equal description of its own.
    pub fn duplicate(&self) -> (d: Self)
        ensures
            d@ == self@,
    {
        let mut entries: Vec<Entry<Value>> = Vec::new();
        let mut i: usize = 0;
        while i < self.entries.len()
            invariant
                i <= self.entries@.len(),
                entries@.len() == i,
                entries_map(entries@) == entries_map(self.entries@.take(i as int)),
            decreases self.entries@.len() - i,
        {
            let entry = Entry {
                key: self.entries[i].key.clone(),
                value: self.entries[i].value.duplicate(),
            };
            let ghost copied = entries@;
            entries.push(entry);
            proof {
                let taken = self.entries@.take(i as int + 1);
                assert(taken.drop_last() =~= self.entries@.take(i as int));
                assert(entries@.drop_last() =~= copied);
                assert(taken.last() == self.entries@[i as int]);
            }
            i += 1;
        }
        proof {
            assert(self.entries@.take(i as int) =~= self.entries@);
        }
        Description { entries }
    }
}

} // verus!
