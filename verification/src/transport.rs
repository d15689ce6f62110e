//! The events that local writes publish for propagation.

use vstd::prelude::*;
use crate::value::{Value, ValueView};

verus! {

/// A change of the local store, to be pushed to the neighbours.
#[derive(Debug)]
pub enum Message {
    /// The key was bound to the value.
    Created(String, Value),
    /// The entry of the key was removed.
    Deleted(String),
}

impl Message {
    /// The key that the event is about.
    pub open spec fn key(&self) -> Seq<char> {
        match self {
            Message::Created(key, _) => key@,
            Message::Deleted(key) => key@,
        }
    }

    /// What the neighbours are sent for the key: the new value, or
    /// `Unit` as the mark of a deletion.
    pub open spec fn payload(&self) -> ValueView {
        match self {
            Message::Created(_, value) => value@,
            Message::Deleted(_) => ValueView::Unit,
        }
    }
}

impl Clone for Message {
    fn clone(&self) -> (copy: Message)
        ensures
            copy.key() == self.key(),
            copy.payload() == self.payload(),
            copy is Created <==> self is Created,
    {
        match self {
            Message::Created(key, value) => Message::Created(key.clone(), value.clone()),
            Message::Deleted(key) => Message::Deleted(key.clone()),
        }
    }
}

} // verus!
