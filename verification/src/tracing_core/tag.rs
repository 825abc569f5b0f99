//! Tags of spans: a key and a value.

use vstd::prelude::*;

verus! {

/// A tag: a key and a value.
#[derive(Debug)]
pub struct Tag {
    key: String,
    value: String,
}

impl View for Tag {
    type V = (Seq<char>, Seq<char>);

    closed spec fn view(&self) -> (Seq<char>, Seq<char>) {
        (self.key@, self.value@)
    }
}

impl Tag {
    /// A tag of the given key and value.
    pub fn new(key: String, value: String) -> (r: Self)
        ensures
            r@ == (key@, value@),
    {
        Tag { key, value }
    }

    /// The key.
    pub fn key(&self) -> (r: String)
        ensures
            r@ == self@.0,
    {
        self.key.clone()
    }

    /// The value.
    pub fn value(&self) -> (r: String)
        ensures
            r@ == self@.1,
    {
        self.value.clone()
    }
}

impl Clone for Tag {
    fn clone(&self) -> (r: Self)
        ensures
            r@ == self@,
    {
        Tag { key: self.key.clone(), value: self.value.clone() }
    }
}

} // verus!
