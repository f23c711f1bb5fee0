//! Flat aggregates: ordered, bounded rows of values, and the collapse of a
//! row into its caller-visible shape.

use crate::value::Value;
use vstd::prelude::*;

verus! {

/// The largest number of elements an aggregate may hold.
pub const MAX_ARITY: usize = 16;

/// The caller-visible shape of an aggregate.
#[derive(Debug, PartialEq, Eq)]
pub enum Unpacked {
    /// No element at all.
    Unit,
    /// Exactly one element, handed out as it is.
    Single(Value),
    /// Two or more elements, in order.
    Tuple(Vec<Value>),
}

/// The mathematical model of an [`Unpacked`].
pub enum UnpackedView {
    Unit,
    Single(Value),
    Tuple(Seq<Value>),
}

impl View for Unpacked {
    type V = UnpackedView;

    open spec fn view(&self) -> UnpackedView {
        match self {
            Unpacked::Unit => UnpackedView::Unit,
            Unpacked::Single(value) => UnpackedView::Single(*value),
            Unpacked::Tuple(values) => UnpackedView::Tuple(values@),
        }
    }
}

impl UnpackedView {
    /// The elements of the shape, in order.
    pub open spec fn elements(self) -> Seq<Value> {
        match self {
            UnpackedView::Unit => Seq::empty(),
            UnpackedView::Single(value) => seq![value],
            UnpackedView::Tuple(values) => values,
        }
    }
}

/// The shape a row of elements collapses into: nothing for the empty row, the
/// bare element for a row of one, and the row itself for anything longer.
pub open spec fn collapse(elements: Seq<Value>) -> UnpackedView {
    if elements.len() == 0 {
        UnpackedView::Unit
    } else if elements.len() == 1 {
        UnpackedView::Single(elements[0])
    } else {
        UnpackedView::Tuple(elements)
    }
}

/// Rows that can take one more element at their end. The view of a row is
/// the sequence of its elements.
pub trait TupleFlatPush: Sized + View<V = Seq<Value>> {
    /// Appends `x` behind the last element of a row that is not yet full.
    fn flat_push(self, x: Value) -> (output: Self)
        requires
            self@.len() < MAX_ARITY,
        ensures
            output@ == self@.push(x),
    ;
}

/// Rows that can be collapsed into their caller-visible shape. The view of a
/// row is the sequence of its elements.
pub trait TupleUnpack: Sized + View<V = Seq<Value>> {
    /// Collapses the row: see [`collapse`].
    fn tuple_unpack(self) -> (unpacked: Unpacked)
        ensures
            unpacked@ == collapse(self@),
    ;
}

impl TupleFlatPush for Vec<Value> {
    fn flat_push(self, x: Value) -> (output: Self) {
        let mut output = self;
        output.push(x);
        output
    }
}

impl TupleUnpack for Vec<Value> {
    fn tuple_unpack(self) -> (unpacked: Unpacked) {
        if self.len() == 0 {
            Unpacked::Unit
        } else if self.len() == 1 {
            Unpacked::Single(self[0])
        } else {
            Unpacked::Tuple(self)
        }
    }
}

} // verus!
