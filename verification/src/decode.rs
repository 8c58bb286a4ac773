//! Decoding of documents into values: the trait that payloads share, and
//! its impls for the plain shapes.

use vstd::prelude::*;
use crate::json::Json;

verus! {

/// A value that a document can be decoded into, and that has a value to
/// stand for it where the document is missing.
pub trait Decode: Sized {
    /// The value as contracts speak of it.
    type Model;

    /// This value as contracts speak of it.
    spec fn model(&self) -> Self::Model;

    /// What a document decodes to, if it has the shape of this type.
    spec fn decoded(json: Json) -> Option<Self::Model>;

    /// What stands for a missing document.
    spec fn absent() -> Self::Model;

    /// Decodes a document; `None` where it has another shape.
    fn decode(json: &Json) -> (r: Option<Self>)
        ensures
            r matches Some(value) ==> Self::decoded(*json) == Some(value.model()),
            r is None ==> Self::decoded(*json) is None,
    ;

    /// The value that stands for a missing document.
    fn fallback() -> (value: Self)
        ensures
            value.model() == Self::absent(),
    ;
}

/// What the items of a list decode to: each item's value, if every item
/// has the shape.
pub open spec fn decoded_items<T: Decode>(items: Seq<Json>) -> Option<Seq<T::Model>> {
    if forall|i: int| 0 <= i < items.len() ==> (#[trigger] T::decoded(items[i])) is Some {
        Some(Seq::new(items.len(), |i: int| T::decoded(items[i])->0))
    } else {
        None
    }
}

/// What a list decodes to: a document that is a list gives what its items
/// decode to, any other document nothing.
pub open spec fn decoded_list<T: Decode>(json: Json) -> Option<Seq<T::Model>> {
    match json {
        Json::List(items) => decoded_items::<T>(items@),
        _ => None,
    }
}

/// The models of the items of a list.
pub open spec fn models<T: Decode>(items: Seq<T>) -> Seq<T::Model> {
    Seq::new(items.len(), |i: int| items[i].model())
}

/// Decodes the items of a list one by one; `None` where an item has
/// another shape.
pub fn decode_items<T: Decode>(items: &Vec<Json>) -> (r: Option<Vec<T>>)
    ensures
        r matches Some(values) ==> decoded_items::<T>(items@) == Some(models(values@)),
        r is None ==> decoded_items::<T>(items@) is None,
{
    let mut values: Vec<T> = Vec::new();
    let mut i: usize = 0;
    while i < items.len()
        invariant
            0 <= i <= items.len(),
            values@.len() == i,
            forall|k: int| 0 <= k < i ==> T::decoded(items@[k]) == Some(#[trigger] values@[k].model()),
        decreases items.len() - i,
    {
        match T::decode(&items[i]) {
            Some(value) => {
                values.push(value);
            },
            None => {
                assert(T::decoded(items@[i as int]) is None);
                return None;
            },
        }
        i += 1;
    }
    assert forall|k: int| 0 <= k < items@.len() implies (#[trigger] T::decoded(items@[k])) is Some by {
        assert(T::decoded(items@[k]) == Some(values@[k].model()));
    }
    assert(decoded_items::<T>(items@)->0 =~= models(values@)) by {
        assert forall|k: int| 0 <= k < items@.len() implies decoded_items::<T>(items@)->0[k] == models(
            values@,
        )[k] by {
            assert(T::decoded(items@[k]) == Some(values@[k].model()));
        }
    }
    Some(values)
}

/// Decodes a list; `None` where the document is no list or an item has
/// another shape.
pub fn decode_list<T: Decode>(json: &Json) -> (r: Option<Vec<T>>)
    ensures
        r matches Some(values) ==> decoded_list::<T>(*json) == Some(models(values@)),
        r is None ==> decoded_list::<T>(*json) is None,
{
    match json {
        Json::List(items) => decode_items::<T>(items),
        _ => None,
    }
}

impl<T: Decode> Decode for Vec<T> {
    type Model = Seq<T::Model>;

    open spec fn model(&self) -> Seq<T::Model> {
        models(self@)
    }

    open spec fn decoded(json: Json) -> Option<Seq<T::Model>> {
        decoded_list::<T>(json)
    }

    open spec fn absent() -> Seq<T::Model> {
        Seq::empty()
    }

    fn decode(json: &Json) -> (r: Option<Self>) {
        decode_list::<T>(json)
    }

    fn fallback() -> (value: Self) {
        let value: Vec<T> = Vec::new();
        assert(models(value@) =~= Seq::<T::Model>::empty());
        value
    }
}

impl Decode for String {
    type Model = Seq<char>;

    open spec fn model(&self) -> Seq<char> {
        self@
    }

    open spec fn decoded(json: Json) -> Option<Seq<char>> {
        json.text()
    }

    open spec fn absent() -> Seq<char> {
        Seq::empty()
    }

    fn decode(json: &Json) -> (r: Option<Self>) {
        match json {
            Json::Text(t) => Some(t.clone()),
            _ => None,
        }
    }

    fn fallback() -> (value: Self) {
        String::new()
    }
}

impl Decode for () {
    type Model = ();

    open spec fn model(&self) -> () {
        ()
    }

    open spec fn decoded(json: Json) -> Option<()> {
        match json {
            Json::Null => Some(()),
            _ => None,
        }
    }

    open spec fn absent() -> () {
        ()
    }

    fn decode(json: &Json) -> (r: Option<Self>) {
        match json {
            Json::Null => Some(()),
            _ => None,
        }
    }

    fn fallback() -> (value: Self) {
        ()
    }
}

} // verus!
