//! The chain itself: an empty base, with or without a fixed context type,
//! wrapped in links that each own one item. The item that was appended first
//! sits outermost, and appending descends to the innermost position.

use crate::flat_tuples::MAX_ARITY;
use crate::item::RetListItem;
use crate::nested_tuples::NestedTuple;
use crate::value::{Diagnostic, TypeTag, Value};
use vstd::prelude::*;
use vstd::seq_lib::lemma_flatten_concat;

verus! {

/// What one link of a chain does each time the chain is evaluated.
pub struct Link {
    /// Whether the link's result becomes part of the aggregate.
    pub contributing: bool,
    /// The result of the link's item.
    pub value: Value,
    /// What the link's item reports, in order.
    pub emits: Seq<Diagnostic>,
}

/// The link that feeds the result of `item` into the aggregate of a chain
/// built for `original`.
pub open spec fn contributing_link<T: RetListItem>(item: T, original: TypeTag) -> Link {
    Link {
        contributing: true,
        value: item.spec_single_return(original),
        emits: item.spec_emits(original),
    }
}

/// The link that runs `item` in a chain built for `original` and drops its
/// result.
pub open spec fn suppressing_link<T: RetListItem>(item: T, original: TypeTag) -> Link {
    Link {
        contributing: false,
        value: item.spec_single_return(original),
        emits: item.spec_emits(original),
    }
}

/// The context type of a chain: the fixed one, or the empty type while none
/// has been fixed.
pub open spec fn context_type(context: Option<TypeTag>) -> TypeTag {
    match context {
        Some(original) => original,
        None => TypeTag::Unit,
    }
}

/// The aggregate of a chain: the results of its contributing links, in the
/// order of the links.
pub open spec fn contributions(links: Seq<Link>) -> Seq<Value> {
    links.filter(|link: Link| link.contributing).map_values(|link: Link| link.value)
}

/// Everything a chain reports during one evaluation: the diagnostics of all
/// its links, contributing or not, in the order of the links.
pub open spec fn effects(links: Seq<Link>) -> Seq<Diagnostic> {
    links.flat_map(|link: Link| link.emits)
}

/// A chain is well formed when its aggregate fits the largest supported arity
/// and every result that a suppressing link drops is the unit value.
pub open spec fn well_formed(links: Seq<Link>) -> bool {
    &&& contributions(links).len() <= MAX_ARITY
    &&& forall|i: int|
        0 <= i < links.len() && !(#[trigger] links[i]).contributing ==> links[i].value
            == Value::Unit
}

/// The aggregate of a chain with one more link in front.
pub proof fn lemma_contributions_prepend(link: Link, links: Seq<Link>)
    ensures
        contributions(seq![link] + links) == if link.contributing {
            seq![link.value] + contributions(links)
        } else {
            contributions(links)
        },
{
    let keep = |link: Link| link.contributing;
    let value = |link: Link| link.value;
    links.lemma_filter_prepend(link, keep);
    if link.contributing {
        assert((seq![link] + links.filter(keep)).map_values(value) =~= seq![link.value]
            + links.filter(keep).map_values(value));
    } else {
        assert(Seq::<Link>::empty() + links.filter(keep) =~= links.filter(keep));
    }
}

/// The aggregate of a chain with one more link behind.
pub proof fn lemma_contributions_push(links: Seq<Link>, link: Link)
    ensures
        contributions(links.push(link)) == if link.contributing {
            contributions(links).push(link.value)
        } else {
            contributions(links)
        },
{
    let keep = |link: Link| link.contributing;
    let value = |link: Link| link.value;
    links.lemma_filter_push(link, keep);
    if link.contributing {
        links.filter(keep).lemma_push_map_commute(value, link);
    }
}

/// The reports of a chain with one more link in front.
pub proof fn lemma_effects_prepend(link: Link, links: Seq<Link>)
    ensures
        effects(seq![link] + links) == link.emits + effects(links),
{
    let emits = |link: Link| link.emits;
    let all = (seq![link] + links).map_values(emits);
    assert(all.first() == link.emits);
    assert(all.drop_first() =~= links.map_values(emits));
}

/// The reports of a chain with one more link behind.
pub proof fn lemma_effects_push(links: Seq<Link>, link: Link)
    ensures
        effects(links.push(link)) == effects(links) + link.emits,
{
    links.lemma_flat_map_push(|link: Link| link.emits, link);
}

/// The aggregate of two runs of links laid end to end.
pub proof fn lemma_contributions_concat(front: Seq<Link>, back: Seq<Link>)
    ensures
        contributions(front + back) == contributions(front) + contributions(back),
{
    let keep = |link: Link| link.contributing;
    let value = |link: Link| link.value;
    Seq::filter_distributes_over_add(front, back, keep);
    assert((front.filter(keep) + back.filter(keep)).map_values(value) =~= front.filter(
        keep,
    ).map_values(value) + back.filter(keep).map_values(value));
}

/// The reports of two runs of links laid end to end.
pub proof fn lemma_effects_concat(front: Seq<Link>, back: Seq<Link>)
    ensures
        effects(front + back) == effects(front) + effects(back),
{
    let emits = |link: Link| link.emits;
    assert((front + back).map_values(emits) =~= front.map_values(emits) + back.map_values(emits));
    lemma_flatten_concat(front.map_values(emits), back.map_values(emits));
}

/// The empty chain has an empty aggregate, reports nothing and is well formed.
pub proof fn lemma_empty_chain()
    ensures
        contributions(Seq::<Link>::empty()) == Seq::<Value>::empty(),
        effects(Seq::<Link>::empty()) == Seq::<Diagnostic>::empty(),
        well_formed(Seq::<Link>::empty()),
{
    reveal(Seq::filter);
    assert(Seq::<Link>::empty().filter(|link: Link| link.contributing) =~= Seq::<Link>::empty());
    assert(contributions(Seq::<Link>::empty()) =~= Seq::<Value>::empty());
    assert(Seq::<Link>::empty().map_values(|link: Link| link.emits) =~= Seq::<
        Seq<Diagnostic>,
    >::empty());
}

/// What one more link behind the others does to a chain: a contributing
/// link adds its result in last position, a suppressing link adds none; either
/// adds its reports behind the others. The chain stays well formed if the
/// link contributes to an aggregate that is not yet full, or drops nothing
/// but the unit value.
pub proof fn lemma_appended(links: Seq<Link>, link: Link)
    ensures
        contributions(links.push(link)) == if link.contributing {
            contributions(links).push(link.value)
        } else {
            contributions(links)
        },
        effects(links.push(link)) == effects(links) + link.emits,
        well_formed(links) && (if link.contributing {
            contributions(links).len() < MAX_ARITY
        } else {
            link.value == Value::Unit
        }) ==> well_formed(links.push(link)),
{
    lemma_contributions_push(links, link);
    lemma_effects_push(links, link);
}

/// What every chain offers: its context type and its aggregate.
pub trait RetList {
    /// The context type that was fixed for the chain, if any was.
    spec fn context(&self) -> Option<TypeTag>;

    /// The links of the chain, in the order in which they were appended.
    spec fn links(&self) -> Seq<Link>;

    /// The context type of the chain.
    fn original(&self) -> (original: TypeTag)
        ensures
            original == context_type(self.context()),
    ;

    /// The number of contributing links of the chain.
    fn arity(&self) -> (arity: usize)
        requires
            contributions(self.links()).len() <= MAX_ARITY,
        ensures
            arity == contributions(self.links()).len(),
    ;

    /// Evaluates every item of the chain once, in the order in which the
    /// items were appended. The results of the contributing links make up
    /// the nested aggregate, first link outermost; what the items report is
    /// appended to `out`.
    fn list_return(&self, out: &mut Vec<Diagnostic>) -> (aggregate: NestedTuple)
        ensures
            aggregate@ == contributions(self.links()),
            final(out)@ == old(out)@ + effects(self.links()),
    ;
}

/// Chains that can take an item whose result joins the aggregate.
pub trait RetListAppendRet<T: RetListItem>: RetList + Sized {
    /// Appends `t` behind the last link. Its result takes the last position
    /// of the aggregate; the links already present keep their order.
    fn append_ret(self, t: T) -> (output: Sequence<T>)
        requires
            t.spec_accepts(context_type(self.context())),
            contributions(self.links()).len() < MAX_ARITY,
        ensures
            output.context() == self.context(),
            output.links() == self.links().push(
                contributing_link(t, context_type(self.context())),
            ),
            contributions(output.links()) == contributions(self.links()).push(
                t.spec_single_return(context_type(self.context())),
            ),
            effects(output.links()) == effects(self.links()) + t.spec_emits(
                context_type(self.context()),
            ),
            well_formed(self.links()) ==> well_formed(output.links()),
    ;
}

/// Chains that can take an item that is run for its effect alone.
pub trait RetListAppendNoRet<T: RetListItem>: RetList + Sized {
    /// Appends `t` behind the last link. Its result, which is the unit value,
    /// is dropped at every evaluation; the aggregate stays as it is.
    fn append_no_ret(self, t: T) -> (output: Sequence<T>)
        requires
            t.spec_accepts(context_type(self.context())),
            t.spec_result_type(context_type(self.context())) == TypeTag::Unit,
        ensures
            output.context() == self.context(),
            output.links() == self.links().push(
                suppressing_link(t, context_type(self.context())),
            ),
            contributions(output.links()) == contributions(self.links()),
            effects(output.links()) == effects(self.links()) + t.spec_emits(
                context_type(self.context()),
            ),
            well_formed(self.links()) ==> well_formed(output.links()),
    ;
}

/// The empty chain whose context type has been fixed.
pub struct OriginalMarker {
    original: TypeTag,
}

/// A link whose item contributes its result to the aggregate.
pub struct ConsRet<I: RetListItem> {
    head: I,
    tail: Box<Sequence<I>>,
}

/// A link whose item is run for its effect; its result is dropped.
pub struct ConsNoRet<I: RetListItem> {
    head: I,
    tail: Box<Sequence<I>>,
}

/// Any chain of items of type `I`.
pub enum Sequence<I: RetListItem> {
    /// The empty chain, no context type fixed.
    Empty,
    /// The empty chain, context type fixed.
    Marked(OriginalMarker),
    /// A chain whose first link contributes.
    Ret(ConsRet<I>),
    /// A chain whose first link suppresses.
    NoRet(ConsNoRet<I>),
}

impl OriginalMarker {
    /// The empty chain for the context type `original`.
    pub fn new(original: TypeTag) -> (marker: Self)
        ensures
            marker.context() == Some(original),
            marker.links() == Seq::<Link>::empty(),
    {
        OriginalMarker { original }
    }
}

impl RetList for () {
    open spec fn context(&self) -> Option<TypeTag> {
        None
    }

    open spec fn links(&self) -> Seq<Link> {
        Seq::empty()
    }

    fn original(&self) -> (original: TypeTag) {
        proof {
            assert(self.context().is_none());
        }
        TypeTag::Unit
    }

    fn arity(&self) -> (arity: usize) {
        proof {
            lemma_empty_chain();
        }
        0
    }

    fn list_return(&self, out: &mut Vec<Diagnostic>) -> (aggregate: NestedTuple) {
        proof {
            lemma_empty_chain();
            assert(out@ + Seq::<Diagnostic>::empty() =~= out@);
        }
        NestedTuple::Unit
    }
}

impl RetList for OriginalMarker {
    closed spec fn context(&self) -> Option<TypeTag> {
        Some(self.original)
    }

    closed spec fn links(&self) -> Seq<Link> {
        Seq::empty()
    }

    fn original(&self) -> (original: TypeTag) {
        self.original
    }

    fn arity(&self) -> (arity: usize) {
        proof {
            lemma_empty_chain();
        }
        0
    }

    fn list_return(&self, out: &mut Vec<Diagnostic>) -> (aggregate: NestedTuple) {
        proof {
            lemma_empty_chain();
            assert(out@ + Seq::<Diagnostic>::empty() =~= out@);
        }
        NestedTuple::Unit
    }
}

impl<I: RetListItem> ConsRet<I> {
    /// The item of the link.
    pub closed spec fn spec_head(&self) -> I {
        self.head
    }

    /// The chain behind the link.
    pub closed spec fn spec_tail(&self) -> Sequence<I> {
        *self.tail
    }

    /// The link shares the context type of the chain behind it, and stands
    /// in front of all the links of that chain.
    pub proof fn lemma_head_is_first(&self)
        ensures
            self.context() == self.spec_tail().context(),
            self.links() == seq![
                contributing_link(self.spec_head(), context_type(self.context())),
            ] + self.spec_tail().links(),
    {
    }

    /// The item of the link: it was appended before every item of the tail.
    pub fn head(&self) -> (head: &I)
        ensures
            *head == self.spec_head(),
    {
        &self.head
    }

    /// The chain behind the link: all that was appended after the head.
    pub fn tail(&self) -> (tail: &Sequence<I>)
        ensures
            *tail == self.spec_tail(),
    {
        &*self.tail
    }

    /// Evaluates the link and what follows it, given the chain's context type.
    fn list_return_under(&self, original: TypeTag, out: &mut Vec<Diagnostic>) -> (aggregate:
        NestedTuple)
        requires
            original == context_type(self.context()),
        ensures
            aggregate@ == contributions(self.links()),
            final(out)@ == old(out)@ + effects(self.links()),
        decreases self,
    {
        let head = self.head.single_return(original, out);
        let rest = self.tail.list_return_under(original, out);
        proof {
            let link = contributing_link(self.head, original);
            lemma_contributions_prepend(link, self.tail.links());
            lemma_effects_prepend(link, self.tail.links());
            assert(out@ =~= old(out)@ + effects(self.links()));
        }
        NestedTuple::Pair(head, Box::new(rest))
    }
}

impl<I: RetListItem> RetList for ConsRet<I> {
    closed spec fn context(&self) -> Option<TypeTag>
        decreases self,
    {
        self.tail.context()
    }

    closed spec fn links(&self) -> Seq<Link>
        decreases self,
    {
        seq![contributing_link(self.head, context_type(self.tail.context()))] + self.tail.links()
    }

    fn original(&self) -> (original: TypeTag)
        decreases self,
    {
        self.tail.original()
    }

    fn arity(&self) -> (arity: usize)
        decreases self,
    {
        proof {
            lemma_contributions_prepend(
                contributing_link(self.head, context_type(self.context())),
                self.tail.links(),
            );
        }
        1 + self.tail.arity()
    }

    fn list_return(&self, out: &mut Vec<Diagnostic>) -> (aggregate: NestedTuple) {
        let original = self.original();
        self.list_return_under(original, out)
    }
}

impl<I: RetListItem> ConsNoRet<I> {
    /// The item of the link.
    pub closed spec fn spec_head(&self) -> I {
        self.head
    }

    /// The chain behind the link.
    pub closed spec fn spec_tail(&self) -> Sequence<I> {
        *self.tail
    }

    /// The link shares the context type of the chain behind it, and stands
    /// in front of all the links of that chain.
    pub proof fn lemma_head_is_first(&self)
        ensures
            self.context() == self.spec_tail().context(),
            self.links() == seq![
                suppressing_link(self.spec_head(), context_type(self.context())),
            ] + self.spec_tail().links(),
    {
    }

    /// The item of the link: it was appended before every item of the tail.
    pub fn head(&self) -> (head: &I)
        ensures
            *head == self.spec_head(),
    {
        &self.head
    }

    /// The chain behind the link: all that was appended after the head.
    pub fn tail(&self) -> (tail: &Sequence<I>)
        ensures
            *tail == self.spec_tail(),
    {
        &*self.tail
    }

    /// Evaluates the link and what follows it, given the chain's context type.
    fn list_return_under(&self, original: TypeTag, out: &mut Vec<Diagnostic>) -> (aggregate:
        NestedTuple)
        requires
            original == context_type(self.context()),
        ensures
            aggregate@ == contributions(self.links()),
            final(out)@ == old(out)@ + effects(self.links()),
        decreases self,
    {
        let _ = self.head.single_return(original, out);
        let rest = self.tail.list_return_under(original, out);
        proof {
            let link = suppressing_link(self.head, original);
            lemma_contributions_prepend(link, self.tail.links());
            lemma_effects_prepend(link, self.tail.links());
            assert(out@ =~= old(out)@ + effects(self.links()));
        }
        rest
    }
}

impl<I: RetListItem> RetList for ConsNoRet<I> {
    closed spec fn context(&self) -> Option<TypeTag>
        decreases self,
    {
        self.tail.context()
    }

    closed spec fn links(&self) -> Seq<Link>
        decreases self,
    {
        seq![suppressing_link(self.head, context_type(self.tail.context()))] + self.tail.links()
    }

    fn original(&self) -> (original: TypeTag)
        decreases self,
    {
        self.tail.original()
    }

    fn arity(&self) -> (arity: usize)
        decreases self,
    {
        proof {
            lemma_contributions_prepend(
                suppressing_link(self.head, context_type(self.context())),
                self.tail.links(),
            );
        }
        self.tail.arity()
    }

    fn list_return(&self, out: &mut Vec<Diagnostic>) -> (aggregate: NestedTuple) {
        let original = self.original();
        self.list_return_under(original, out)
    }
}

impl<I: RetListItem> Sequence<I> {
    /// Evaluates the chain, given its context type.
    fn list_return_under(&self, original: TypeTag, out: &mut Vec<Diagnostic>) -> (aggregate:
        NestedTuple)
        requires
            original == context_type(self.context()),
        ensures
            aggregate@ == contributions(self.links()),
            final(out)@ == old(out)@ + effects(self.links()),
        decreases self,
    {
        match self {
            Sequence::Empty => ().list_return(out),
            Sequence::Marked(marker) => marker.list_return(out),
            Sequence::Ret(link) => link.list_return_under(original, out),
            Sequence::NoRet(link) => link.list_return_under(original, out),
        }
    }
}

impl<I: RetListItem> RetList for Sequence<I> {
    closed spec fn context(&self) -> Option<TypeTag>
        decreases self,
    {
        match self {
            Sequence::Empty => None,
            Sequence::Marked(marker) => marker.context(),
            Sequence::Ret(link) => link.context(),
            Sequence::NoRet(link) => link.context(),
        }
    }

    closed spec fn links(&self) -> Seq<Link>
        decreases self,
    {
        match self {
            Sequence::Empty => Seq::empty(),
            Sequence::Marked(marker) => marker.links(),
            Sequence::Ret(link) => link.links(),
            Sequence::NoRet(link) => link.links(),
        }
    }

    fn original(&self) -> (original: TypeTag)
        decreases self,
    {
        match self {
            Sequence::Empty => ().original(),
            Sequence::Marked(marker) => marker.original(),
            Sequence::Ret(link) => link.original(),
            Sequence::NoRet(link) => link.original(),
        }
    }

    fn arity(&self) -> (arity: usize)
        decreases self,
    {
        match self {
            Sequence::Empty => ().arity(),
            Sequence::Marked(marker) => marker.arity(),
            Sequence::Ret(link) => link.arity(),
            Sequence::NoRet(link) => link.arity(),
        }
    }

    fn list_return(&self, out: &mut Vec<Diagnostic>) -> (aggregate: NestedTuple) {
        let original = self.original();
        self.list_return_under(original, out)
    }
}

impl<T: RetListItem> RetListAppendRet<T> for () {
    /// The empty chain is the one place where a link is wrapped around a
    /// chain: the new link holds `t` and has the empty chain behind it.
    fn append_ret(self, t: T) -> (output: Sequence<T>)
        ensures
            output matches Sequence::Ret(link) && link.spec_head() == t && link.spec_tail()
                == Sequence::<T>::Empty,
    {
        let link = ConsRet { head: t, tail: Box::new(Sequence::Empty) };
        proof {
            assert(link.tail.context().is_none());
            assert(link.links() =~= Seq::<Link>::empty().push(contributing_link(t, TypeTag::Unit)));
            lemma_appended(self.links(), contributing_link(t, TypeTag::Unit));
        }
        Sequence::Ret(link)
    }
}

impl<T: RetListItem> RetListAppendNoRet<T> for () {
    /// The empty chain is the one place where a link is wrapped around a
    /// chain: the new link holds `t` and has the empty chain behind it.
    fn append_no_ret(self, t: T) -> (output: Sequence<T>)
        ensures
            output matches Sequence::NoRet(link) && link.spec_head() == t && link.spec_tail()
                == Sequence::<T>::Empty,
    {
        let link = ConsNoRet { head: t, tail: Box::new(Sequence::Empty) };
        proof {
            assert(link.tail.context().is_none());
            assert(link.links() =~= Seq::<Link>::empty().push(suppressing_link(t, TypeTag::Unit)));
            t.lemma_result_is_typed(TypeTag::Unit);
            lemma_appended(self.links(), suppressing_link(t, TypeTag::Unit));
        }
        Sequence::NoRet(link)
    }
}

impl<T: RetListItem> RetListAppendRet<T> for OriginalMarker {
    /// The new link holds `t` and has the marker behind it.
    fn append_ret(self, t: T) -> (output: Sequence<T>)
        ensures
            output matches Sequence::Ret(link) && link.spec_head() == t && link.spec_tail()
                == Sequence::<T>::Marked(self),
    {
        let link = ConsRet { head: t, tail: Box::new(Sequence::Marked(self)) };
        proof {
            assert(link.tail.context() == self.context());
            assert(link.links() =~= self.links().push(
                contributing_link(t, context_type(self.context())),
            ));
            lemma_appended(self.links(), contributing_link(t, context_type(self.context())));
        }
        Sequence::Ret(link)
    }
}

impl<T: RetListItem> RetListAppendNoRet<T> for OriginalMarker {
    /// The new link holds `t` and has the marker behind it.
    fn append_no_ret(self, t: T) -> (output: Sequence<T>)
        ensures
            output matches Sequence::NoRet(link) && link.spec_head() == t && link.spec_tail()
                == Sequence::<T>::Marked(self),
    {
        let link = ConsNoRet { head: t, tail: Box::new(Sequence::Marked(self)) };
        proof {
            assert(link.tail.context() == self.context());
            assert(link.links() =~= self.links().push(
                suppressing_link(t, context_type(self.context())),
            ));
            t.lemma_result_is_typed(context_type(self.context()));
            lemma_appended(self.links(), suppressing_link(t, context_type(self.context())));
        }
        Sequence::NoRet(link)
    }
}

impl<I: RetListItem> RetListAppendRet<I> for ConsRet<I> {
    /// The link stays outermost and keeps its item; `t` is appended to the
    /// chain behind it.
    fn append_ret(self, t: I) -> (output: Sequence<I>)
        ensures
            output matches Sequence::Ret(link) && link.spec_head() == self.spec_head()
                && link.spec_tail().links() == self.spec_tail().links().push(
                contributing_link(t, context_type(self.context())),
            ),
        decreases self,
    {
        proof {
            lemma_contributions_prepend(
                contributing_link(self.head, context_type(self.context())),
                self.tail.links(),
            );
        }
        let ConsRet { head, tail } = self;
        let extended = (*tail).append_ret(t);
        let link = ConsRet { head, tail: Box::new(extended) };
        proof {
            assert(link.links() =~= self.links().push(
                contributing_link(t, context_type(self.context())),
            ));
            lemma_appended(self.links(), contributing_link(t, context_type(self.context())));
        }
        Sequence::Ret(link)
    }
}

impl<I: RetListItem> RetListAppendNoRet<I> for ConsRet<I> {
    /// The link stays outermost and keeps its item; `t` is appended to the
    /// chain behind it.
    fn append_no_ret(self, t: I) -> (output: Sequence<I>)
        ensures
            output matches Sequence::Ret(link) && link.spec_head() == self.spec_head()
                && link.spec_tail().links() == self.spec_tail().links().push(
                suppressing_link(t, context_type(self.context())),
            ),
        decreases self,
    {
        let ConsRet { head, tail } = self;
        let extended = (*tail).append_no_ret(t);
        let link = ConsRet { head, tail: Box::new(extended) };
        proof {
            assert(link.links() =~= self.links().push(
                suppressing_link(t, context_type(self.context())),
            ));
            t.lemma_result_is_typed(context_type(self.context()));
            lemma_appended(self.links(), suppressing_link(t, context_type(self.context())));
        }
        Sequence::Ret(link)
    }
}

impl<I: RetListItem> RetListAppendRet<I> for ConsNoRet<I> {
    /// The link stays outermost and keeps its item; `t` is appended to the
    /// chain behind it.
    fn append_ret(self, t: I) -> (output: Sequence<I>)
        ensures
            output matches Sequence::NoRet(link) && link.spec_head() == self.spec_head()
                && link.spec_tail().links() == self.spec_tail().links().push(
                contributing_link(t, context_type(self.context())),
            ),
        decreases self,
    {
        proof {
            lemma_contributions_prepend(
                suppressing_link(self.head, context_type(self.context())),
                self.tail.links(),
            );
        }
        let ConsNoRet { head, tail } = self;
        let extended = (*tail).append_ret(t);
        let link = ConsNoRet { head, tail: Box::new(extended) };
        proof {
            assert(link.links() =~= self.links().push(
                contributing_link(t, context_type(self.context())),
            ));
            lemma_appended(self.links(), contributing_link(t, context_type(self.context())));
        }
        Sequence::NoRet(link)
    }
}

impl<I: RetListItem> RetListAppendNoRet<I> for ConsNoRet<I> {
    /// The link stays outermost and keeps its item; `t` is appended to the
    /// chain behind it.
    fn append_no_ret(self, t: I) -> (output: Sequence<I>)
        ensures
            output matches Sequence::NoRet(link) && link.spec_head() == self.spec_head()
                && link.spec_tail().links() == self.spec_tail().links().push(
                suppressing_link(t, context_type(self.context())),
            ),
        decreases self,
    {
        let ConsNoRet { head, tail } = self;
        let extended = (*tail).append_no_ret(t);
        let link = ConsNoRet { head, tail: Box::new(extended) };
        proof {
            assert(link.links() =~= self.links().push(
                suppressing_link(t, context_type(self.context())),
            ));
            t.lemma_result_is_typed(context_type(self.context()));
            lemma_appended(self.links(), suppressing_link(t, context_type(self.context())));
        }
        Sequence::NoRet(link)
    }
}

impl<I: RetListItem> RetListAppendRet<I> for Sequence<I> {
    /// Hands `t` to the chain's outermost node, whichever it is.
    fn append_ret(self, t: I) -> (output: Sequence<I>)
        decreases self,
    {
        match self {
            Sequence::Empty => ().append_ret(t),
            Sequence::Marked(marker) => marker.append_ret(t),
            Sequence::Ret(link) => link.append_ret(t),
            Sequence::NoRet(link) => link.append_ret(t),
        }
    }
}

impl<I: RetListItem> RetListAppendNoRet<I> for Sequence<I> {
    /// Hands `t` to the chain's outermost node, whichever it is.
    fn append_no_ret(self, t: I) -> (output: Sequence<I>)
        decreases self,
    {
        match self {
            Sequence::Empty => ().append_no_ret(t),
            Sequence::Marked(marker) => marker.append_no_ret(t),
            Sequence::Ret(link) => link.append_no_ret(t),
            Sequence::NoRet(link) => link.append_no_ret(t),
        }
    }
}

} // verus!
