//! Incrementally built chains of heterogeneous items whose results collapse
//! into an empty, scalar or tuple-shaped aggregate.

pub mod flat_tuples;
pub mod item;
pub mod laws;
pub mod list_wrapper;
pub mod nested_tuples;
pub mod ret_list;
pub mod value;

pub use crate::flat_tuples::{TupleFlatPush, TupleUnpack, Unpacked, MAX_ARITY};
pub use crate::item::{Item, PrintMessage, RetListItem, ReturnsDefault, ReturnsInt, ReturnsStr};
pub use crate::list_wrapper::{new_list, BuildError, ListWrapper};
pub use crate::nested_tuples::{Flatten, NestedTuple, NestedTupleAppend};
pub use crate::ret_list::{
    ConsNoRet, ConsRet, OriginalMarker, RetList, RetListAppendNoRet, RetListAppendRet, Sequence,
};
pub use crate::value::{default_value, Diagnostic, TypeTag, Value};
