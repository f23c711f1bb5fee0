//! Nested aggregates: right-nested chains of `(value, rest)` pairs that end in
//! an empty marker, and their flattening into the caller-visible shape.

use crate::flat_tuples::{collapse, TupleFlatPush, TupleUnpack, Unpacked, MAX_ARITY};
use crate::value::Value;
use vstd::prelude::*;

verus! {

/// A right-nested chain of pairs. The first element sits outermost.
#[derive(Debug, PartialEq, Eq)]
pub enum NestedTuple {
    /// The empty marker that ends every chain.
    Unit,
    /// One element in front of the rest of the chain.
    Pair(Value, Box<NestedTuple>),
}

impl NestedTuple {
    /// The elements from the outermost pair inwards.
    pub open spec fn spec_elements(&self) -> Seq<Value>
        decreases self,
    {
        match self {
            NestedTuple::Unit => Seq::empty(),
            NestedTuple::Pair(value, rest) => seq![*value] + rest.spec_elements(),
        }
    }
}

impl View for NestedTuple {
    type V = Seq<Value>;

    open spec fn view(&self) -> Seq<Value> {
        self.spec_elements()
    }
}

/// Nested aggregates that can take one more element in last position. The
/// view of an aggregate is the sequence of its elements, outermost first.
pub trait NestedTupleAppend: Sized + View<V = Seq<Value>> {
    /// Extends the aggregate by `x`, which becomes its innermost element; the
    /// elements already present keep their places.
    fn append(self, x: Value) -> (output: Self)
        ensures
            output@ == self@.push(x),
    ;
}

/// Nested aggregates that can be brought into their caller-visible shape. The
/// view of an aggregate is the sequence of its elements, outermost first.
pub trait Flatten: Sized + View<V = Seq<Value>> {
    /// Lays the elements out in a row, outermost first, and collapses the
    /// row: nothing, the bare element, or the ordered tuple.
    fn flatten_unpack(self) -> (unpacked: Unpacked)
        requires
            self@.len() <= MAX_ARITY,
        ensures
            unpacked@ == collapse(self@),
    ;
}

impl NestedTupleAppend for NestedTuple {
    fn append(self, x: Value) -> (output: Self)
        decreases self,
    {
        match self {
            NestedTuple::Unit => {
                let output = NestedTuple::Pair(x, Box::new(NestedTuple::Unit));
                assert(output@ =~= seq![x] + NestedTuple::Unit@);
                assert(output@ =~= self@.push(x));
                output
            },
            NestedTuple::Pair(value, rest) => {
                let extended = (*rest).append(x);
                let output = NestedTuple::Pair(value, Box::new(extended));
                assert(output@ =~= self@.push(x));
                output
            },
        }
    }
}

impl Flatten for NestedTuple {
    fn flatten_unpack(self) -> (unpacked: Unpacked) {
        let mut row: Vec<Value> = Vec::new();
        let mut rest: &NestedTuple = &self;
        loop
            invariant
                row@ + rest@ == self@,
                self@.len() <= MAX_ARITY,
            ensures
                row@ == self@,
            decreases rest@.len(),
        {
            match rest {
                NestedTuple::Unit => {
                    assert(row@ + rest@ =~= row@);
                    break ;
                },
                NestedTuple::Pair(value, inner) => {
                    assert(row@.push(*value) + inner@ =~= row@ + rest@);
                    row = row.flat_push(*value);
                    rest = &**inner;
                },
            }
        }
        row.tuple_unpack()
    }
}

} // verus!
