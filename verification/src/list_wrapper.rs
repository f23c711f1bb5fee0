//! The builder: start a chain, fix its context type once, push items, and
//! evaluate as often as needed.

use crate::flat_tuples::{collapse, Unpacked, UnpackedView, MAX_ARITY};
use crate::item::RetListItem;
use crate::nested_tuples::Flatten;
use crate::ret_list::{
    contributing_link, contributions, context_type, effects, lemma_empty_chain, suppressing_link,
    well_formed, Link, OriginalMarker, RetList, RetListAppendNoRet, RetListAppendRet, Sequence,
};
use crate::value::{Diagnostic, TypeTag, Value};
use vstd::prelude::*;

verus! {

/// Why a push was turned down.
#[derive(Clone, Copy, Debug, PartialEq, Eq, Structural)]
pub enum BuildError {
    /// The item cannot work with the context type of the chain.
    ContextMismatch,
    /// The item's result is not empty, so it cannot be dropped.
    NonEmptyResult,
    /// The aggregate already holds as many elements as are supported.
    ArityExceeded,
}

/// The mathematical model of a chain under construction.
pub struct ChainView {
    /// The context type that was fixed, if any was.
    pub context: Option<TypeTag>,
    /// The links in the order in which they were pushed.
    pub links: Seq<Link>,
}

impl ChainView {
    /// The context type of the chain.
    pub open spec fn original(self) -> TypeTag {
        context_type(self.context)
    }

    /// The results of the contributing links, in the order of the pushes.
    pub open spec fn aggregate(self) -> Seq<Value> {
        contributions(self.links)
    }

    /// The number of contributing links.
    pub open spec fn arity(self) -> nat {
        self.aggregate().len()
    }

    /// What an evaluation hands back.
    pub open spec fn evaluation(self) -> UnpackedView {
        collapse(self.aggregate())
    }

    /// What an evaluation reports.
    pub open spec fn reports(self) -> Seq<Diagnostic> {
        effects(self.links)
    }

    /// The chain with one more link behind the others.
    pub open spec fn pushed(self, link: Link) -> ChainView {
        ChainView { context: self.context, links: self.links.push(link) }
    }

    /// See [`well_formed`].
    pub open spec fn well_formed(self) -> bool {
        well_formed(self.links)
    }
}

/// A chain under construction. Every chain that this type hands out is well
/// formed.
pub struct ListWrapper<L: RetList>(L);

impl<L: RetList> View for ListWrapper<L> {
    type V = ChainView;

    closed spec fn view(&self) -> ChainView {
        ChainView { context: self.0.context(), links: self.0.links() }
    }
}

/// Starts a chain: no item, no context type fixed.
pub fn new_list() -> (list: ListWrapper<()>)
    ensures
        list@.context.is_none(),
        list@.links == Seq::<Link>::empty(),
        list@.aggregate() == Seq::<Value>::empty(),
        list@.reports() == Seq::<Diagnostic>::empty(),
        list@.well_formed(),
{
    proof {
        lemma_empty_chain();
    }
    ListWrapper(())
}

impl ListWrapper<()> {
    /// Fixes the context type of a chain that has not been started. No later
    /// operation changes it.
    pub fn original_marker(self, original: TypeTag) -> (list: ListWrapper<OriginalMarker>)
        ensures
            list@.context == Some(original),
            list@.links == Seq::<Link>::empty(),
            list@.aggregate() == Seq::<Value>::empty(),
            list@.reports() == Seq::<Diagnostic>::empty(),
            list@.well_formed(),
    {
        proof {
            lemma_empty_chain();
        }
        ListWrapper(OriginalMarker::new(original))
    }
}

impl<L: RetList> ListWrapper<L> {
    #[verifier::type_invariant]
    spec fn inv(self) -> bool {
        well_formed(self.0.links())
    }

    /// The context type of the chain: the one that was fixed, or the empty
    /// type if none was.
    pub fn original(&self) -> (original: TypeTag)
        ensures
            original == self@.original(),
    {
        self.0.original()
    }

    /// The number of results that an evaluation hands back.
    pub fn arity(&self) -> (arity: usize)
        ensures
            arity == self@.arity(),
            arity <= MAX_ARITY,
    {
        proof {
            use_type_invariant(self);
        }
        self.0.arity()
    }

    /// Evaluates the chain: runs every item once, in the order of the pushes,
    /// appends what the items report to `out`, and hands back the results of
    /// the contributing items in their collapsed shape. The chain is left as
    /// it was, so it can be evaluated again.
    pub fn eval(&self, out: &mut Vec<Diagnostic>) -> (unpacked: Unpacked)
        ensures
            unpacked@ == self@.evaluation(),
            final(out)@ == old(out)@ + self@.reports(),
            self@.well_formed(),
    {
        proof {
            use_type_invariant(self);
        }
        self.0.list_return(out).flatten_unpack()
    }

    /// Pushes an item whose result joins the aggregate, behind everything
    /// pushed so far. The push is turned down if the item cannot work with
    /// the chain's context type, or else if the aggregate is full.
    pub fn push_ret<T: RetListItem>(self, rh: T) -> (pushed: Result<
        ListWrapper<Sequence<T>>,
        BuildError,
    >) where L: RetListAppendRet<T>
        ensures
            pushed is Ok <==> rh.spec_accepts(self@.original()) && self@.arity() < MAX_ARITY,
            pushed matches Ok(list) ==> {
                &&& list@ == self@.pushed(contributing_link(rh, self@.original()))
                &&& list@.aggregate() == self@.aggregate().push(
                    rh.spec_single_return(self@.original()),
                )
                &&& list@.reports() == self@.reports() + rh.spec_emits(self@.original())
                &&& list@.well_formed()
            },
            pushed matches Err(error) ==> error == if !rh.spec_accepts(self@.original()) {
                BuildError::ContextMismatch
            } else {
                BuildError::ArityExceeded
            },
    {
        proof {
            use_type_invariant(&self);
        }
        let original = self.0.original();
        if !rh.accepts(original) {
            return Err(BuildError::ContextMismatch);
        }
        if self.0.arity() >= MAX_ARITY {
            return Err(BuildError::ArityExceeded);
        }
        Ok(ListWrapper(self.0.append_ret(rh)))
    }

    /// Pushes an item that is run for its effect alone, behind everything
    /// pushed so far. The push is turned down if the item cannot work with
    /// the chain's context type, or else if its result is not empty.
    pub fn handle_result<T: RetListItem>(self, t: T) -> (pushed: Result<
        ListWrapper<Sequence<T>>,
        BuildError,
    >) where L: RetListAppendNoRet<T>
        ensures
            pushed is Ok <==> t.spec_accepts(self@.original()) && t.spec_result_type(
                self@.original(),
            ) == TypeTag::Unit,
            pushed matches Ok(list) ==> {
                &&& list@ == self@.pushed(suppressing_link(t, self@.original()))
                &&& list@.aggregate() == self@.aggregate()
                &&& list@.reports() == self@.reports() + t.spec_emits(self@.original())
                &&& list@.well_formed()
            },
            pushed matches Err(error) ==> error == if !t.spec_accepts(self@.original()) {
                BuildError::ContextMismatch
            } else {
                BuildError::NonEmptyResult
            },
    {
        proof {
            use_type_invariant(&self);
        }
        let original = self.0.original();
        if !t.accepts(original) {
            return Err(BuildError::ContextMismatch);
        }
        if t.result_type(original) != TypeTag::Unit {
            return Err(BuildError::NonEmptyResult);
        }
        Ok(ListWrapper(self.0.append_no_ret(t)))
    }
}

} // verus!
