//! The item contract, and the items that ship with the library.

use crate::value::{default_value, spec_default_value, Diagnostic, TypeTag, Value};
use vstd::prelude::*;

verus! {

/// What every element of a chain must be able to do.
///
/// An item says with which context types it can work, declares the type of
/// its result under each of them, and computes that result on demand. While
/// it computes, it may report diagnostics; what it reports and what it
/// returns depend on the item and the context type alone.
pub trait RetListItem {
    /// Whether the item can join a chain built for the context type `original`.
    spec fn spec_accepts(&self, original: TypeTag) -> bool;

    /// The type of the item's result in a chain built for `original`.
    spec fn spec_result_type(&self, original: TypeTag) -> TypeTag;

    /// The item's result in a chain built for `original`.
    spec fn spec_single_return(&self, original: TypeTag) -> Value;

    /// What the item reports, in order, each time it is evaluated.
    spec fn spec_emits(&self, original: TypeTag) -> Seq<Diagnostic>;

    /// The result of an item always has the type the item declares.
    proof fn lemma_result_is_typed(&self, original: TypeTag)
        ensures
            self.spec_single_return(original).spec_type_tag() == self.spec_result_type(original),
    ;

    /// Decides whether the item can join a chain built for `original`.
    fn accepts(&self, original: TypeTag) -> (accepted: bool)
        ensures
            accepted == self.spec_accepts(original),
    ;

    /// Tells the type of the item's result in a chain built for `original`.
    fn result_type(&self, original: TypeTag) -> (tag: TypeTag)
        ensures
            tag == self.spec_result_type(original),
    ;

    /// Evaluates the item: appends its diagnostics to `out` and hands its
    /// result back.
    fn single_return(&self, original: TypeTag, out: &mut Vec<Diagnostic>) -> (result: Value)
        ensures
            result == self.spec_single_return(original),
            final(out)@ == old(out)@ + self.spec_emits(original),
    ;
}

/// The item that does nothing: it fits every chain, reports nothing and
/// returns the unit value.
impl RetListItem for () {
    open spec fn spec_accepts(&self, original: TypeTag) -> bool {
        true
    }

    open spec fn spec_result_type(&self, original: TypeTag) -> TypeTag {
        TypeTag::Unit
    }

    open spec fn spec_single_return(&self, original: TypeTag) -> Value {
        Value::Unit
    }

    open spec fn spec_emits(&self, original: TypeTag) -> Seq<Diagnostic> {
        Seq::empty()
    }

    proof fn lemma_result_is_typed(&self, original: TypeTag) {
    }

    fn accepts(&self, original: TypeTag) -> (accepted: bool) {
        true
    }

    fn result_type(&self, original: TypeTag) -> (tag: TypeTag) {
        TypeTag::Unit
    }

    fn single_return(&self, original: TypeTag, out: &mut Vec<Diagnostic>) -> (result: Value) {
        assert(out@ =~= old(out)@ + Seq::<Diagnostic>::empty());
        Value::Unit
    }
}

/// Reports a message and returns the unit value. Fits every chain.
#[derive(Clone, Copy, Debug, PartialEq, Eq)]
pub struct PrintMessage(pub &'static str);

impl RetListItem for PrintMessage {
    open spec fn spec_accepts(&self, original: TypeTag) -> bool {
        true
    }

    open spec fn spec_result_type(&self, original: TypeTag) -> TypeTag {
        TypeTag::Unit
    }

    open spec fn spec_single_return(&self, original: TypeTag) -> Value {
        Value::Unit
    }

    open spec fn spec_emits(&self, original: TypeTag) -> Seq<Diagnostic> {
        seq![Diagnostic::Message(self.0)]
    }

    proof fn lemma_result_is_typed(&self, original: TypeTag) {
    }

    fn accepts(&self, original: TypeTag) -> (accepted: bool) {
        true
    }

    fn result_type(&self, original: TypeTag) -> (tag: TypeTag) {
        TypeTag::Unit
    }

    fn single_return(&self, original: TypeTag, out: &mut Vec<Diagnostic>) -> (result: Value) {
        out.push(Diagnostic::Message(self.0));
        assert(out@ =~= old(out)@ + seq![Diagnostic::Message(self.0)]);
        Value::Unit
    }
}

/// Returns its string, after reporting that it is about to. Fits chains
/// built for integers only.
#[derive(Clone, Copy, Debug, PartialEq, Eq)]
pub struct ReturnsStr(pub &'static str);

impl RetListItem for ReturnsStr {
    open spec fn spec_accepts(&self, original: TypeTag) -> bool {
        original == TypeTag::Int
    }

    open spec fn spec_result_type(&self, original: TypeTag) -> TypeTag {
        TypeTag::Str
    }

    open spec fn spec_single_return(&self, original: TypeTag) -> Value {
        Value::Str(self.0)
    }

    open spec fn spec_emits(&self, original: TypeTag) -> Seq<Diagnostic> {
        seq![Diagnostic::ReturningStr(self.0)]
    }

    proof fn lemma_result_is_typed(&self, original: TypeTag) {
    }

    fn accepts(&self, original: TypeTag) -> (accepted: bool) {
        original == TypeTag::Int
    }

    fn result_type(&self, original: TypeTag) -> (tag: TypeTag) {
        TypeTag::Str
    }

    fn single_return(&self, original: TypeTag, out: &mut Vec<Diagnostic>) -> (result: Value) {
        out.push(Diagnostic::ReturningStr(self.0));
        assert(out@ =~= old(out)@ + seq![Diagnostic::ReturningStr(self.0)]);
        Value::Str(self.0)
    }
}

/// Returns its integer, after reporting that it is about to. Fits chains
/// built for integers only.
#[derive(Clone, Copy, Debug, PartialEq, Eq)]
pub struct ReturnsInt(pub i32);

impl RetListItem for ReturnsInt {
    open spec fn spec_accepts(&self, original: TypeTag) -> bool {
        original == TypeTag::Int
    }

    open spec fn spec_result_type(&self, original: TypeTag) -> TypeTag {
        TypeTag::Int
    }

    open spec fn spec_single_return(&self, original: TypeTag) -> Value {
        Value::Int(self.0)
    }

    open spec fn spec_emits(&self, original: TypeTag) -> Seq<Diagnostic> {
        seq![Diagnostic::ReturningInt(self.0)]
    }

    proof fn lemma_result_is_typed(&self, original: TypeTag) {
    }

    fn accepts(&self, original: TypeTag) -> (accepted: bool) {
        original == TypeTag::Int
    }

    fn result_type(&self, original: TypeTag) -> (tag: TypeTag) {
        TypeTag::Int
    }

    fn single_return(&self, original: TypeTag, out: &mut Vec<Diagnostic>) -> (result: Value) {
        out.push(Diagnostic::ReturningInt(self.0));
        assert(out@ =~= old(out)@ + seq![Diagnostic::ReturningInt(self.0)]);
        Value::Int(self.0)
    }
}

/// Returns the default value of the chain's context type. Fits every chain
/// and reports nothing.
#[derive(Clone, Copy, Debug, PartialEq, Eq)]
pub struct ReturnsDefault;

impl RetListItem for ReturnsDefault {
    open spec fn spec_accepts(&self, original: TypeTag) -> bool {
        true
    }

    open spec fn spec_result_type(&self, original: TypeTag) -> TypeTag {
        original
    }

    open spec fn spec_single_return(&self, original: TypeTag) -> Value {
        spec_default_value(original)
    }

    open spec fn spec_emits(&self, original: TypeTag) -> Seq<Diagnostic> {
        Seq::empty()
    }

    proof fn lemma_result_is_typed(&self, original: TypeTag) {
    }

    fn accepts(&self, original: TypeTag) -> (accepted: bool) {
        true
    }

    fn result_type(&self, original: TypeTag) -> (tag: TypeTag) {
        original
    }

    fn single_return(&self, original: TypeTag, out: &mut Vec<Diagnostic>) -> (result: Value) {
        assert(out@ =~= old(out)@ + Seq::<Diagnostic>::empty());
        default_value(original)
    }
}

/// Any one of the library's items, so that a single chain can hold them side
/// by side.
#[derive(Clone, Copy, Debug, PartialEq, Eq)]
pub enum Item {
    /// The item that does nothing.
    Noop,
    /// A [`PrintMessage`].
    Print(PrintMessage),
    /// A [`ReturnsStr`].
    Str(ReturnsStr),
    /// A [`ReturnsInt`].
    Int(ReturnsInt),
    /// A [`ReturnsDefault`].
    Default(ReturnsDefault),
}

impl RetListItem for Item {
    open spec fn spec_accepts(&self, original: TypeTag) -> bool {
        match self {
            Item::Noop => ().spec_accepts(original),
            Item::Print(item) => item.spec_accepts(original),
            Item::Str(item) => item.spec_accepts(original),
            Item::Int(item) => item.spec_accepts(original),
            Item::Default(item) => item.spec_accepts(original),
        }
    }

    open spec fn spec_result_type(&self, original: TypeTag) -> TypeTag {
        match self {
            Item::Noop => ().spec_result_type(original),
            Item::Print(item) => item.spec_result_type(original),
            Item::Str(item) => item.spec_result_type(original),
            Item::Int(item) => item.spec_result_type(original),
            Item::Default(item) => item.spec_result_type(original),
        }
    }

    open spec fn spec_single_return(&self, original: TypeTag) -> Value {
        match self {
            Item::Noop => ().spec_single_return(original),
            Item::Print(item) => item.spec_single_return(original),
            Item::Str(item) => item.spec_single_return(original),
            Item::Int(item) => item.spec_single_return(original),
            Item::Default(item) => item.spec_single_return(original),
        }
    }

    open spec fn spec_emits(&self, original: TypeTag) -> Seq<Diagnostic> {
        match self {
            Item::Noop => ().spec_emits(original),
            Item::Print(item) => item.spec_emits(original),
            Item::Str(item) => item.spec_emits(original),
            Item::Int(item) => item.spec_emits(original),
            Item::Default(item) => item.spec_emits(original),
        }
    }

    proof fn lemma_result_is_typed(&self, original: TypeTag) {
    }

    fn accepts(&self, original: TypeTag) -> (accepted: bool) {
        match self {
            Item::Noop => ().accepts(original),
            Item::Print(item) => item.accepts(original),
            Item::Str(item) => item.accepts(original),
            Item::Int(item) => item.accepts(original),
            Item::Default(item) => item.accepts(original),
        }
    }

    fn result_type(&self, original: TypeTag) -> (tag: TypeTag) {
        match self {
            Item::Noop => ().result_type(original),
            Item::Print(item) => item.result_type(original),
            Item::Str(item) => item.result_type(original),
            Item::Int(item) => item.result_type(original),
            Item::Default(item) => item.result_type(original),
        }
    }

    fn single_return(&self, original: TypeTag, out: &mut Vec<Diagnostic>) -> (result: Value) {
        match self {
            Item::Noop => ().single_return(original, out),
            Item::Print(item) => item.single_return(original, out),
            Item::Str(item) => item.single_return(original, out),
            Item::Int(item) => item.single_return(original, out),
            Item::Default(item) => item.single_return(original, out),
        }
    }
}

} // verus!
