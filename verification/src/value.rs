//! The closed universe of values that items may produce, the tags that name
//! their types, and the diagnostics that items may emit while they run.

use vstd::prelude::*;

verus! {

/// The name of one type of the value universe.
///
/// A chain is built for exactly one such type, its context type, and every
/// item declares the type of its result with one of these tags.
#[derive(Clone, Copy, Debug, PartialEq, Eq, Hash, Structural)]
pub enum TypeTag {
    /// The empty type: its only value carries no information.
    Unit,
    /// 32-bit signed integers.
    Int,
    /// Static string slices.
    Str,
    /// An integer that may be absent.
    Optional,
}

/// One value of the universe.
#[derive(Clone, Copy, Debug, PartialEq, Eq)]
pub enum Value {
    /// The value of the empty type.
    Unit,
    /// An integer.
    Int(i32),
    /// A static string slice.
    Str(&'static str),
    /// An optional integer; `None` is the absent value.
    Optional(Option<i32>),
}

/// Something an item reported while it was being evaluated.
#[derive(Clone, Copy, Debug, PartialEq, Eq)]
pub enum Diagnostic {
    /// A free-form message.
    Message(&'static str),
    /// The item is about to return the given string.
    ReturningStr(&'static str),
    /// The item is about to return the given integer.
    ReturningInt(i32),
}

impl Value {
    /// The type this value belongs to.
    pub open spec fn spec_type_tag(&self) -> TypeTag {
        match self {
            Value::Unit => TypeTag::Unit,
            Value::Int(_) => TypeTag::Int,
            Value::Str(_) => TypeTag::Str,
            Value::Optional(_) => TypeTag::Optional,
        }
    }

    /// Computes the type this value belongs to.
    pub fn type_tag(&self) -> (tag: TypeTag)
        ensures
            tag == self.spec_type_tag(),
    {
        match self {
            Value::Unit => TypeTag::Unit,
            Value::Int(_) => TypeTag::Int,
            Value::Str(_) => TypeTag::Str,
            Value::Optional(_) => TypeTag::Optional,
        }
    }
}

/// The default value of each type: the unit value, zero, the empty string,
/// and the absent optional.
pub open spec fn spec_default_value(tag: TypeTag) -> Value {
    match tag {
        TypeTag::Unit => Value::Unit,
        TypeTag::Int => Value::Int(0),
        TypeTag::Str => Value::Str(""),
        TypeTag::Optional => Value::Optional(None),
    }
}

/// Produces the default value of the given type.
pub fn default_value(tag: TypeTag) -> (value: Value)
    ensures
        value == spec_default_value(tag),
        value.spec_type_tag() == tag,
{
    match tag {
        TypeTag::Unit => Value::Unit,
        TypeTag::Int => Value::Int(0),
        TypeTag::Str => Value::Str(""),
        TypeTag::Optional => Value::Optional(None),
    }
}

} // verus!
