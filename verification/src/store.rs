//! Descriptions of what the backend reads from and writes to its databases: which
//! table or collection, which records (by fields that must hold given values), and for
//! updates which columns are left alone.
use vstd::prelude::*;
use crate::text::{decimal, decimal_text};

verus! {

/// A condition on a record: the field holds the value. A numeric field's value is the
/// number in decimal.
pub struct FieldEq {
    pub field: String,
    pub value: String,
    pub numeric: bool,
}

/// The records of a table (or collection) that meet every condition.
pub struct Selection {
    pub table: String,
    pub conditions: Vec<FieldEq>,
}

/// An update of the selected records that writes every column but the skipped ones.
pub struct Update {
    pub selection: Selection,
    pub skipped: Vec<String>,
}

impl View for FieldEq {
    type V = (Seq<char>, Seq<char>);

    open spec fn view(&self) -> (Seq<char>, Seq<char>) {
        (self.field@, self.value@)
    }
}

/// A selection as plain values: the table, and the (field, value) conditions in order.
pub open spec fn selection_view(s: Selection) -> (Seq<char>, Seq<(Seq<char>, Seq<char>)>) {
    (s.table@, s.conditions@.map_values(|c: FieldEq| c@))
}

/// What a lookup of at most one record answered.
pub enum Lookup<T> {
    /// The query failed.
    Failed,
    /// No record matched.
    Missing,
    /// This record matched.
    Found(T),
}

/// Whether every condition of a selection compares its field as text.
pub open spec fn compares_as_text(s: Selection) -> bool {
    forall|k: int| 0 <= k < s.conditions@.len() ==> !(#[trigger] s.conditions@[k]).numeric
}

/// A record as the database holds it: column name to value.
pub type Record = Map<Seq<char>, Seq<char>>;

/// Whether a record meets every condition.
pub open spec fn selects(conditions: Seq<(Seq<char>, Seq<char>)>, record: Record) -> bool {
    forall|k: int|
        0 <= k < conditions.len() ==> record.contains_key(#[trigger] conditions[k].0) && record[conditions[k].0]
            == conditions[k].1
}

/// What an update does to one record: where the record is selected, every column of the
/// new values that is not skipped is written; any other record stays as it was.
pub open spec fn apply_update(
    record: Record,
    conditions: Seq<(Seq<char>, Seq<char>)>,
    skipped: Seq<Seq<char>>,
    new_values: Record,
) -> Record {
    if selects(conditions, record) {
        Map::new(
            |col: Seq<char>| record.contains_key(col) || (new_values.contains_key(col) && !skipped.contains(col)),
            |col: Seq<char>|
                if new_values.contains_key(col) && !skipped.contains(col) {
                    new_values[col]
                } else {
                    record[col]
                },
        )
    } else {
        record
    }
}

/// A condition from a field name and a text value.
pub fn field_eq(field: &str, value: &str) -> (c: FieldEq)
    ensures
        c@ == (field@, value@),
        !c.numeric,
{
    FieldEq { field: String::from_str(field), value: String::from_str(value), numeric: false }
}

/// A condition from a numeric field's name and its number.
pub fn field_eq_number(field: &str, value: u64) -> (c: FieldEq)
    ensures
        c@ == (field@, decimal(value as nat)),
        c.numeric,
{
    FieldEq { field: String::from_str(field), value: decimal_text(value), numeric: true }
}

/// The records of `table` whose `field` holds `value`.
pub fn select_by(table: &str, field: &str, value: &str) -> (s: Selection)
    ensures
        selection_view(s) == (table@, seq![(field@, value@)]),
        compares_as_text(s),
{
    let mut conditions: Vec<FieldEq> = Vec::new();
    conditions.push(field_eq(field, value));
    let s = Selection { table: String::from_str(table), conditions };
    assert(selection_view(s).1 =~= seq![(field@, value@)]);
    s
}

/// The records of `table` whose `field1` holds `value1` and whose `field2` holds `value2`.
pub fn select_by_both(table: &str, field1: &str, value1: &str, field2: &str, value2: &str) -> (s: Selection)
    ensures
        selection_view(s) == (table@, seq![(field1@, value1@), (field2@, value2@)]),
        compares_as_text(s),
{
    let mut conditions: Vec<FieldEq> = Vec::new();
    conditions.push(field_eq(field1, value1));
    conditions.push(field_eq(field2, value2));
    let s = Selection { table: String::from_str(table), conditions };
    assert(selection_view(s).1 =~= seq![(field1@, value1@), (field2@, value2@)]);
    s
}

/// The name of the document database that the studio keeps its collections in.
pub open spec fn studio_database() -> Seq<char> {
    seq!['b', 'e', 'v', 'y', '-', 's', 't', 'u', 'd', 'i', 'o']
}

/// The document database's name (`bevy-studio`).
pub fn studio_database_name() -> (name: String)
    ensures
        name@ == studio_database(),
{
    proof {
        reveal_strlit("bevy-studio");
    }
    String::from_str("bevy-studio")
}

} // verus!
