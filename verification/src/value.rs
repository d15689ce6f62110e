//! The values that the cache holds.

use vstd::prelude::*;

verus! {

/// A dynamically typed cache value. A floating-point number is held by
/// the bit pattern of its 64-bit encoding.
#[derive(Debug, PartialEq)]
pub enum Value {
    /// The absent value; also what a read of a missing key gives.
    Unit,
    Bool(bool),
    I64(i64),
    U64(u64),
    /// The bits of a 64-bit floating-point number.
    F64(u64),
    String(String),
    Array(Vec<Value>),
    Object(Vec<(String, Value)>),
}

/// The mathematical content of a `Value`.
pub enum ValueView {
    Unit,
    Bool(bool),
    I64(i64),
    U64(u64),
    F64(u64),
    String(Seq<char>),
    Array(Seq<ValueView>),
    Object(Seq<(Seq<char>, ValueView)>),
}

impl View for Value {
    type V = ValueView;

    open spec fn view(&self) -> ValueView
        decreases self,
    {
        match self {
            Value::Unit => ValueView::Unit,
            Value::Bool(b) => ValueView::Bool(*b),
            Value::I64(n) => ValueView::I64(*n),
            Value::U64(n) => ValueView::U64(*n),
            Value::F64(bits) => ValueView::F64(*bits),
            Value::String(s) => ValueView::String(s@),
            Value::Array(items) => ValueView::Array(
                Seq::new(
                    items@.len(),
                    |i: int|
                        if 0 <= i < items@.len() {
                            items@[i]@
                        } else {
                            ValueView::Unit
                        },
                ),
            ),
            Value::Object(fields) => ValueView::Object(
                Seq::new(
                    fields@.len(),
                    |i: int|
                        if 0 <= i < fields@.len() {
                            (fields@[i].0@, fields@[i].1@)
                        } else {
                            (Seq::empty(), ValueView::Unit)
                        },
                ),
            ),
        }
    }
}

impl Value {
    /// Makes a copy of the value.
    pub fn duplicate(&self) -> (copy: Value)
        ensures
            copy@ == self@,
        decreases self,
    {
        match self {
            Value::Unit => Value::Unit,
            Value::Bool(b) => Value::Bool(*b),
            Value::I64(n) => Value::I64(*n),
            Value::U64(n) => Value::U64(*n),
            Value::F64(bits) => Value::F64(*bits),
            Value::String(s) => Value::String(s.clone()),
            Value::Array(items) => {
                let mut out: Vec<Value> = Vec::new();
                let mut i: usize = 0;
                while i < items.len()
                    invariant
                        i <= items.len(),
                        out.len() == i,
                        decreases_to!(*self => *items),
                        forall|j: int| 0 <= j < i ==> out@[j]@ == items@[j]@,
                    decreases items.len() - i,
                {
                    proof {
                        vstd::std_specs::vec::axiom_vec_index_decreases(*items, i as int);
                    }
                    out.push(items[i].duplicate());
                    i += 1;
                }
                let copy = Value::Array(out);
                assert(copy@->Array_0 =~= self@->Array_0);
                copy
            },
            Value::Object(fields) => {
                let mut out: Vec<(String, Value)> = Vec::new();
                let mut i: usize = 0;
                while i < fields.len()
                    invariant
                        i <= fields.len(),
                        out.len() == i,
                        decreases_to!(*self => *fields),
                        forall|j: int|
                            0 <= j < i ==> out@[j].0@ == fields@[j].0@ && out@[j].1@
                                == fields@[j].1@,
                    decreases fields.len() - i,
                {
                    proof {
                        vstd::std_specs::vec::axiom_vec_index_decreases(*fields, i as int);
                    }
                    out.push((fields[i].0.clone(), fields[i].1.duplicate()));
                    i += 1;
                }
                let copy = Value::Object(out);
                assert(copy@->Object_0 =~= self@->Object_0);
                copy
            },
        }
    }
}

impl Clone for Value {
    fn clone(&self) -> (copy: Value)
        ensures
            copy@ == self@,
    {
        self.duplicate()
    }
}

} // verus!
