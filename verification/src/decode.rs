//! Records that are read from JSON values: what shape a value must have, and the record
//! that a value of that shape holds.

use crate::json::{content, get_items, get_member, member, JsonView};
use vstd::prelude::*;

verus! {

/// A record that can be read from a JSON value of a fixed shape.
pub trait Decode: View + Sized {
    /// The record that a JSON value holds, where the value has the record's shape.
    spec fn shape(json: JsonView) -> Option<Self::V>;

    /// Reads the record from a value, or gives nothing where the value has not its shape.
    fn decode(value: &serde_json::Value) -> (r: Option<Self>)
        ensures
            match r {
                Some(record) => Self::shape(content(*value)) == Some(record@),
                None => Self::shape(content(*value)) is None,
            },
    ;
}

/// The records of a list, each by its view.
pub open spec fn views<T: View>(records: Seq<T>) -> Seq<T::V> {
    records.map_values(|record: T| record@)
}

/// The record under a given name of an object.
pub open spec fn nested<T: Decode>(json: JsonView, name: Seq<char>) -> Option<T::V> {
    match member(json, name) {
        Some(inner) => T::shape(inner),
        None => None,
    }
}

/// The records that an array holds, in order, where every item has the record's shape.
pub open spec fn listed<T: Decode>(json: JsonView) -> Option<Seq<T::V>> {
    match json {
        JsonView::Array(items) => if forall|i: int|
            0 <= i < items.len() ==> (#[trigger] T::shape(items[i])) is Some {
            Some(items.map_values(|item: JsonView| T::shape(item).unwrap()))
        } else {
            None
        },
        _ => None,
    }
}

/// The list of records under a given name of an object.
pub open spec fn nested_list<T: Decode>(json: JsonView, name: Seq<char>) -> Option<Seq<T::V>> {
    match member(json, name) {
        Some(inner) => listed::<T>(inner),
        None => None,
    }
}

/// Reads the record under a given name of an object.
pub fn read_nested<T: Decode>(value: &serde_json::Value, name: &str) -> (r: Option<T>)
    ensures
        match r {
            Some(record) => nested::<T>(content(*value), name@) == Some(record@),
            None => nested::<T>(content(*value), name@) is None,
        },
{
    match get_member(value, name) {
        Some(inner) => T::decode(inner),
        None => None,
    }
}

/// Reads the records of an array, in order. One item of another shape, and nothing is read.
pub fn read_list<T: Decode>(value: &serde_json::Value) -> (r: Option<Vec<T>>)
    ensures
        match r {
            Some(records) => listed::<T>(content(*value)) == Some(views(records@)),
            None => listed::<T>(content(*value)) is None,
        },
{
    let items = match get_items(value) {
        Some(items) => items,
        None => {
            return None;
        },
    };
    let ghost models = Seq::new(items@.len(), |i: int| content(items@[i]));
    let mut records: Vec<T> = Vec::new();
    let mut i: usize = 0;
    while i < items.len()
        invariant
            i <= items.len(),
            records@.len() == i,
            models == Seq::new(items@.len(), |i: int| content(items@[i])),
            content(*value) == JsonView::Array(models),
            forall|j: int| 0 <= j < i ==> T::shape(#[trigger] models[j]) == Some(records@[j]@),
        decreases items.len() - i,
    {
        match T::decode(&items[i]) {
            Some(record) => {
                records.push(record);
            },
            None => {
                assert(T::shape(models[i as int]) is None);
                return None;
            },
        }
        i += 1;
    }
    assert(views(records@) =~= models.map_values(|item: JsonView| T::shape(item).unwrap()));
    Some(records)
}

/// Reads the list of records under a given name of an object.
pub fn read_nested_list<T: Decode>(value: &serde_json::Value, name: &str) -> (r: Option<Vec<T>>)
    ensures
        match r {
            Some(records) => nested_list::<T>(content(*value), name@) == Some(views(records@)),
            None => nested_list::<T>(content(*value), name@) is None,
        },
{
    match get_member(value, name) {
        Some(inner) => read_list(inner),
        None => None,
    }
}

} // verus!
