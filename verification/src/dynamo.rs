//! What the service hands to DynamoDB and takes back from it: the keys of a
//! batch read, the item of a write, the rows of a batch read's response, and
//! the name of the environment variable that holds a table's name.

use crate::attribute::{
    entries_map, find_entry, lemma_entries_map_last_wins, lemma_entries_map_push, list_elements, number_text, string_text, text_attr, AttrValue, Item,
};
use vstd::prelude::*;

verus! {

/// A `(name, text)` parameter as the string attribute it becomes.
pub open spec fn string_entry(p: (String, String)) -> (String, AttrValue) {
    (p.0, AttrValue::S(p.1))
}

/// The item that a list of `(name, text)` parameters denotes, every value a
/// string; a later parameter overrides an earlier one of the same name.
pub open spec fn params_item(params: Seq<(String, String)>) -> Map<Seq<char>, AttrValue> {
    entries_map(params.map_values(|p: (String, String)| string_entry(p)))
}

/// The text of parameter `name`: the last one of that name.
pub open spec fn param_text(params: Seq<(String, String)>, name: Seq<char>) -> Option<Seq<char>> {
    text_attr(params_item(params), name)
}

fn string_entry_of(p: &(String, String)) -> (r: (String, AttrValue))
    ensures
        r == string_entry(*p),
{
    (p.0.clone(), AttrValue::S(p.1.clone()))
}

/// The keys of a batch read (`query_dynamodb`): one single-attribute item
/// per parameter, in order, the value as a string.
pub fn batch_keys(query_params: &Vec<(String, String)>) -> (r: Vec<Item>)
    ensures
        r@.len() == query_params@.len(),
        forall|i: int|
            0 <= i < r@.len() ==> (#[trigger] r@[i]).fields@ == seq![string_entry(query_params@[i])],
{
    let mut keys: Vec<Item> = Vec::new();
    let mut i: usize = 0;
    while i < query_params.len()
        invariant
            i <= query_params@.len(),
            keys@.len() == i,
            forall|j: int|
                0 <= j < i ==> (#[trigger] keys@[j]).fields@ == seq![string_entry(query_params@[j])],
        decreases query_params@.len() - i,
    {
        let mut fields: Vec<(String, AttrValue)> = Vec::new();
        fields.push(string_entry_of(&query_params[i]));
        assert(fields@ =~= seq![string_entry(query_params@[i as int])]);
        keys.push(Item { fields });
        i = i + 1;
    }
    keys
}

/// The item of a write (`put_dynamodb`): every parameter as a string
/// attribute, in order, so that the last parameter of a name counts.
pub fn item_from_params(query_params: &Vec<(String, String)>) -> (r: Item)
    ensures
        r.fields@ == query_params@.map_values(|p: (String, String)| string_entry(p)),
        r@ == params_item(query_params@),
{
    let mut fields: Vec<(String, AttrValue)> = Vec::new();
    let mut i: usize = 0;
    while i < query_params.len()
        invariant
            i <= query_params@.len(),
            fields@ =~= query_params@.take(i as int).map_values(
                |p: (String, String)| string_entry(p),
            ),
        decreases query_params@.len() - i,
    {
        fields.push(string_entry_of(&query_params[i]));
        assert(query_params@.take(i + 1) =~= query_params@.take(i as int).push(query_params@[i as int]));
        i = i + 1;
    }
    assert(query_params@.take(query_params@.len() as int) =~= query_params@);
    Item { fields }
}

/// The response of a batch read: for each table, the rows found.
pub struct BatchResponse {
    pub tables: Vec<(String, Vec<Item>)>,
}

impl View for BatchResponse {
    type V = Map<Seq<char>, Vec<Item>>;

    open spec fn view(&self) -> Map<Seq<char>, Vec<Item>> {
        entries_map(self.tables@)
    }
}

impl BatchResponse {
    /// A response with no tables.
    pub fn new() -> (r: BatchResponse)
        ensures
            r@ == Map::<Seq<char>, Vec<Item>>::empty(),
    {
        BatchResponse { tables: Vec::new() }
    }

    /// `HashMap::insert`: sets the rows of `table`.
    pub fn insert(&mut self, table: String, rows: Vec<Item>)
        ensures
            final(self)@ == old(self)@.insert(table@, rows),
    {
        proof {
            lemma_entries_map_push(self.tables@, (table, rows));
        }
        self.tables.push((table, rows));
    }

    /// `HashMap::get`: the rows of `table`.
    pub fn rows(&self, table: &String) -> (r: Option<&Vec<Item>>)
        ensures
            r is Some <==> self@.contains_key(table@),
            r matches Some(rows) ==> *rows == self@[table@],
    {
        match find_entry(&self.tables, table) {
            Some(i) => Some(&self.tables[i].1),
            None => None,
        }
    }

    /// `HashMap::remove`, keeping only the value: the rows of `table`.
    pub fn take_rows(self, table: &String) -> (r: Option<Vec<Item>>)
        ensures
            r is Some <==> self@.contains_key(table@),
            r matches Some(rows) ==> rows == self@[table@],
    {
        match find_entry(&self.tables, table) {
            Some(i) => {
                let mut tables = self.tables;
                let entry = tables.swap_remove(i);
                Some(entry.1)
            },
            None => None,
        }
    }
}

/// What `str::to_uppercase` returns for a string: its characters mapped by
/// Unicode's uppercase mapping.
pub uninterp spec fn unicode_uppercase(s: Seq<char>) -> Seq<char>;

/// `str::to_uppercase`.  The result is named, not spelled out: it depends on
/// the string alone, through Unicode's case tables.
#[verifier::external_body]
fn to_uppercase(s: &str) -> (r: String)
    ensures
        r@ == unicode_uppercase(s@),
{
    s.to_uppercase()
}

/// The environment variable that names the table of a query key:
/// `format!("{}_TABLE", key.to_uppercase())`.
pub fn table_env_var(key: &String) -> (r: String)
    ensures
        r@ == unicode_uppercase(key@) + "_TABLE"@,
{
    let mut name = to_uppercase(key.as_str());
    name.append("_TABLE");
    name
}

/// How an element of a list attribute is read: as a number (`as_n`) or as a
/// string (`as_s`).
pub open spec fn element_text(a: AttrValue, numbers: bool) -> Option<Seq<char>> {
    if numbers {
        number_text(a)
    } else {
        string_text(a)
    }
}

/// Attribute `name` of `item` is a list whose elements all read as wanted.
pub open spec fn readable_list(item: Map<Seq<char>, AttrValue>, name: Seq<char>, numbers: bool) -> bool {
    &&& item.contains_key(name)
    &&& list_elements(item[name]) is Some
    &&& forall|i: int|
        0 <= i < list_elements(item[name])->0.len() ==> (#[trigger] element_text(
            list_elements(item[name])->0[i],
            numbers,
        )) is Some
}

/// The elements of list attribute `name`.
pub open spec fn list_attr(item: Map<Seq<char>, AttrValue>, name: Seq<char>) -> Seq<AttrValue> {
    list_elements(item[name])->0
}

/// `out` pairs `key` with the text of each element of `elements`, in order.
pub open spec fn keyed_texts(
    out: Seq<(String, String)>,
    key: Seq<char>,
    elements: Seq<AttrValue>,
    numbers: bool,
) -> bool {
    &&& out.len() == elements.len()
    &&& forall|i: int|
        0 <= i < out.len() ==> (#[trigger] out[i]).0@ == key && element_text(elements[i], numbers)
            == Some(out[i].1@)
}

/// The parameters `(key, text)` for the elements of list attribute `name`,
/// when the item has that attribute and every element reads as wanted.
pub fn keyed_list_params(item: &Item, name: &String, key: &String, numbers: bool) -> (r: Option<
    Vec<(String, String)>,
>)
    ensures
        r is Some <==> readable_list(item@, name@, numbers),
        r matches Some(out) ==> keyed_texts(out@, key@, list_attr(item@, name@), numbers),
{
    let list = match item.get(name) {
        Some(v) => match v.as_l() {
            Some(l) => l,
            None => {
                return None;
            },
        },
        None => {
            return None;
        },
    };
    let ghost es = list_attr(item@, name@);
    assert(list@ == es);
    let mut out: Vec<(String, String)> = Vec::new();
    let mut i: usize = 0;
    while i < list.len()
        invariant
            i <= list@.len(),
            list@ == es,
            item@.contains_key(name@),
            list_elements(item@[name@]) == Some(es),
            out@.len() == i,
            forall|j: int|
                0 <= j < i ==> (#[trigger] out@[j]).0@ == key@ && element_text(es[j], numbers)
                    == Some(out@[j].1@),
            forall|j: int| 0 <= j < i ==> (#[trigger] element_text(es[j], numbers)) is Some,
        decreases list@.len() - i,
    {
        let text = if numbers {
            list[i].as_n()
        } else {
            list[i].as_s()
        };
        match text {
            Some(t) => {
                out.push((key.clone(), t.clone()));
            },
            None => {
                assert(element_text(es[i as int], numbers) is None);
                return None;
            },
        }
        i = i + 1;
    }
    Some(out)
}

/// The item written for a list of parameters holds, for each name, the text
/// of the last parameter of that name, as a string.
pub proof fn lemma_params_item_last_wins(params: Seq<(String, String)>, i: int)
    requires
        0 <= i < params.len(),
        forall|j: int| i < j < params.len() ==> (#[trigger] params[j]).0@ != params[i].0@,
    ensures
        params_item(params).contains_key(params[i].0@),
        params_item(params)[params[i].0@] == AttrValue::S(params[i].1),
        param_text(params, params[i].0@) == Some(params[i].1@),
{
    let entries = params.map_values(|p: (String, String)| string_entry(p));
    assert forall|j: int| i < j < entries.len() implies (#[trigger] entries[j]).0@ != entries[i].0@ by {
        assert(entries[j] == string_entry(params[j]));
    }
    lemma_entries_map_last_wins(entries, i);
}

} // verus!
