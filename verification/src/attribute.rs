//! DynamoDB records as the service reads and writes them.
//!
//! A record (an "item") maps attribute names to attribute values.  It is held
//! as the list of `(name, value)` pairs in the order they were set; when a
//! name occurs more than once the last pair counts, as it does when such a
//! list is collected into a map.

use vstd::prelude::*;

verus! {

/// An attribute value of a DynamoDB item, as far as the service reads it.
pub enum AttrValue {
    /// A string (`S`).
    S(String),
    /// A number (`N`), kept as the decimal text DynamoDB sends.
    N(String),
    /// A list (`L`).
    L(Vec<AttrValue>),
    /// A value of a type the service never reads (binary, boolean, null,
    /// map, or a set).
    Other,
}

/// The text of a string value, if `a` is one.
pub open spec fn string_text(a: AttrValue) -> Option<Seq<char>> {
    match a {
        AttrValue::S(s) => Some(s@),
        _ => None,
    }
}

/// The text of a number value, if `a` is one.
pub open spec fn number_text(a: AttrValue) -> Option<Seq<char>> {
    match a {
        AttrValue::N(s) => Some(s@),
        _ => None,
    }
}

/// The elements of a list value, if `a` is one.
pub open spec fn list_elements(a: AttrValue) -> Option<Seq<AttrValue>> {
    match a {
        AttrValue::L(v) => Some(v@),
        _ => None,
    }
}

impl AttrValue {
    /// `AttributeValue::as_s`: the string, if this is a string value.
    pub fn as_s(&self) -> (r: Option<&String>)
        ensures
            r is Some <==> self is S,
            r matches Some(s) ==> string_text(*self) == Some(s@),
    {
        match self {
            AttrValue::S(s) => Some(s),
            _ => None,
        }
    }

    /// `AttributeValue::as_n`: the decimal text, if this is a number value.
    pub fn as_n(&self) -> (r: Option<&String>)
        ensures
            r is Some <==> self is N,
            r matches Some(s) ==> number_text(*self) == Some(s@),
    {
        match self {
            AttrValue::N(s) => Some(s),
            _ => None,
        }
    }

    /// `AttributeValue::as_l`: the elements, if this is a list value.
    pub fn as_l(&self) -> (r: Option<&Vec<AttrValue>>)
        ensures
            r is Some <==> self is L,
            r matches Some(v) ==> list_elements(*self) == Some(v@),
    {
        match self {
            AttrValue::L(v) => Some(v),
            _ => None,
        }
    }
}

/// The map that a list of named entries denotes: later entries override
/// earlier ones with the same name.
pub open spec fn entries_map<V>(entries: Seq<(String, V)>) -> Map<Seq<char>, V>
    decreases entries.len(),
{
    if entries.len() == 0 {
        Map::empty()
    } else {
        entries_map(entries.drop_last()).insert(entries.last().0@, entries.last().1)
    }
}

/// The entry at `i` is the one that counts for its name when no later entry
/// has that name.
pub proof fn lemma_entries_map_last_wins<V>(entries: Seq<(String, V)>, i: int)
    requires
        0 <= i < entries.len(),
        forall|j: int| i < j < entries.len() ==> (#[trigger] entries[j]).0@ != entries[i].0@,
    ensures
        entries_map(entries).contains_key(entries[i].0@),
        entries_map(entries)[entries[i].0@] == entries[i].1,
    decreases entries.len(),
{
    if i < entries.len() - 1 {
        let t = entries.drop_last();
        assert forall|j: int| i < j < t.len() implies (#[trigger] t[j]).0@ != t[i].0@ by {
            assert(t[j] == entries[j]);
        }
        lemma_entries_map_last_wins(t, i);
        assert(entries.last() == entries[entries.len() - 1]);
    }
}

/// A name that no entry carries is not in the map.
pub proof fn lemma_entries_map_absent<V>(entries: Seq<(String, V)>, name: Seq<char>)
    requires
        forall|j: int| 0 <= j < entries.len() ==> (#[trigger] entries[j]).0@ != name,
    ensures
        !entries_map(entries).contains_key(name),
    decreases entries.len(),
{
    if entries.len() > 0 {
        let t = entries.drop_last();
        assert forall|j: int| 0 <= j < t.len() implies (#[trigger] t[j]).0@ != name by {
            assert(t[j] == entries[j]);
        }
        lemma_entries_map_absent(t, name);
        assert(entries.last() == entries[entries.len() - 1]);
    }
}

/// The map of a list with one more entry at the end.
pub proof fn lemma_entries_map_push<V>(entries: Seq<(String, V)>, e: (String, V))
    ensures
        entries_map(entries.push(e)) == entries_map(entries).insert(e.0@, e.1),
{
    assert(entries.push(e).drop_last() =~= entries);
}

/// Finds the entry that counts for `name`: the last one carrying it.
pub fn find_entry<'a, V>(entries: &'a Vec<(String, V)>, name: &String) -> (r: Option<usize>)
    ensures
        r is Some <==> entries_map(entries@).contains_key(name@),
        r matches Some(i) ==> i < entries@.len() && entries@[i as int].0@ == name@
            && entries_map(entries@)[name@] == entries@[i as int].1,
{
    let mut i = entries.len();
    while i > 0
        invariant
            i <= entries@.len(),
            forall|j: int| i <= j < entries@.len() ==> (#[trigger] entries@[j]).0@ != name@,
        decreases i,
    {
        i = i - 1;
        if entries[i].0 == *name {
            proof {
                lemma_entries_map_last_wins(entries@, i as int);
            }
            return Some(i);
        }
    }
    proof {
        lemma_entries_map_absent(entries@, name@);
    }
    None
}

/// A DynamoDB item: attribute names with their values.
pub struct Item {
    pub fields: Vec<(String, AttrValue)>,
}

impl View for Item {
    type V = Map<Seq<char>, AttrValue>;

    open spec fn view(&self) -> Map<Seq<char>, AttrValue> {
        entries_map(self.fields@)
    }
}

/// The text of the string attribute `name` of an item, if it has one.
pub open spec fn text_attr(item: Map<Seq<char>, AttrValue>, name: Seq<char>) -> Option<Seq<char>> {
    if item.contains_key(name) {
        string_text(item[name])
    } else {
        None
    }
}

impl Item {
    /// An item with no attributes.
    pub fn new() -> (r: Item)
        ensures
            r@ == Map::<Seq<char>, AttrValue>::empty(),
    {
        Item { fields: Vec::new() }
    }

    /// `HashMap::get`: the value of attribute `name`.
    pub fn get(&self, name: &String) -> (r: Option<&AttrValue>)
        ensures
            r is Some <==> self@.contains_key(name@),
            r matches Some(v) ==> *v == self@[name@],
    {
        match find_entry(&self.fields, name) {
            Some(i) => Some(&self.fields[i].1),
            None => None,
        }
    }

    /// `HashMap::insert`: sets attribute `name` to `value`.
    pub fn insert(&mut self, name: String, value: AttrValue)
        ensures
            final(self)@ == old(self)@.insert(name@, value),
    {
        proof {
            lemma_entries_map_push(self.fields@, (name, value));
        }
        self.fields.push((name, value));
    }

    /// The text of string attribute `name`, when the item has that attribute
    /// and it is a string.
    pub fn text(&self, name: &String) -> (r: Option<&String>)
        ensures
            r is Some <==> text_attr(self@, name@) is Some,
            r matches Some(s) ==> text_attr(self@, name@) == Some(s@),
    {
        match self.get(name) {
            Some(v) => v.as_s(),
            None => None,
        }
    }
}

/// Reading an item after setting an attribute gives the value set for that
/// attribute, and what it held before for every other one.
pub proof fn lemma_get_after_insert(
    item: Map<Seq<char>, AttrValue>,
    name: Seq<char>,
    value: AttrValue,
    other: Seq<char>,
)
    requires
        other != name,
    ensures
        item.insert(name, value).contains_key(name),
        item.insert(name, value)[name] == value,
        item.insert(name, value).contains_key(other) == item.contains_key(other),
        item.contains_key(other) ==> item.insert(name, value)[other] == item[other],
{
}

} // verus!
