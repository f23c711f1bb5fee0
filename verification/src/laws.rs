//! What holds of every chain, whatever was pushed and in whatever order.

use crate::flat_tuples::{collapse, UnpackedView, MAX_ARITY};
use crate::item::RetListItem;
use crate::list_wrapper::ChainView;
use crate::ret_list::{
    contributing_link, contributions, context_type, effects, lemma_contributions_concat,
    lemma_contributions_push, lemma_effects_concat, lemma_effects_push, lemma_empty_chain,
    suppressing_link, Link,
};
use crate::value::{Diagnostic, TypeTag, Value};
use vstd::prelude::*;

verus! {

impl ChainView {
    /// The chain after pushing `links` one after the other, first link first.
    pub open spec fn pushed_all(self, links: Seq<Link>) -> ChainView
        decreases links.len(),
    {
        if links.len() == 0 {
            self
        } else {
            self.pushed_all(links.drop_last()).pushed(links.last())
        }
    }

    /// What one evaluation does to a chain and a log of reports: the value it
    /// hands back, and the log afterwards.
    pub open spec fn evaluated(self, log: Seq<Diagnostic>) -> (UnpackedView, Seq<Diagnostic>) {
        (self.evaluation(), log + self.reports())
    }
}

/// The number of contributing links among the first `k` links.
pub open spec fn rank(links: Seq<Link>, k: int) -> nat {
    contributions(links.take(k)).len()
}

/// The links of `links` that contribute, in their order.
pub open spec fn contributing_only(links: Seq<Link>) -> Seq<Link> {
    links.filter(|link: Link| link.contributing)
}

/// Pushing links one after the other lays them behind those already there,
/// in the order of the pushes.
pub proof fn lemma_pushed_all_links(chain: ChainView, links: Seq<Link>)
    ensures
        chain.pushed_all(links).links == chain.links + links,
        chain.pushed_all(links).context == chain.context,
    decreases links.len(),
{
    if links.len() == 0 {
        assert(chain.links + links =~= chain.links);
    } else {
        lemma_pushed_all_links(chain, links.drop_last());
        assert((chain.links + links.drop_last()).push(links.last()) =~= chain.links + links);
    }
}

/// Order preservation, position by position: the result of a contributing
/// link stands in the aggregate at the place given by the number of
/// contributing links pushed before it, however many suppressing links stand
/// in between.
pub proof fn lemma_contribution_position(links: Seq<Link>, k: int)
    requires
        0 <= k < links.len(),
        links[k].contributing,
    ensures
        rank(links, k) < contributions(links).len(),
        contributions(links)[rank(links, k) as int] == links[k].value,
    decreases links.len(),
{
    let front = links.drop_last();
    assert(links =~= front.push(links.last()));
    lemma_contributions_push(front, links.last());
    if k == links.len() - 1 {
        assert(links.take(k) =~= front);
    } else {
        assert(links.take(k) =~= front.take(k));
        lemma_contribution_position(front, k);
    }
}

/// Order preservation, pair by pair: of two contributing links, the one
/// pushed first has its result earlier in the aggregate.
pub proof fn lemma_order_preservation(links: Seq<Link>, j: int, k: int)
    requires
        0 <= j < k < links.len(),
        links[j].contributing,
        links[k].contributing,
    ensures
        rank(links, j) < rank(links, k) < contributions(links).len(),
        contributions(links)[rank(links, j) as int] == links[j].value,
        contributions(links)[rank(links, k) as int] == links[k].value,
{
    lemma_contribution_position(links, j);
    lemma_contribution_position(links, k);
    let before = links.take(k);
    assert(before.take(j) =~= links.take(j));
    lemma_contribution_position(before, j);
}

/// Order preservation, as a whole: the aggregate holds the results of the
/// contributing links alone, one for each, in the order of the pushes. The
/// suppressing links, wherever they stand and however many there are, change
/// nothing.
pub proof fn lemma_aggregate_of_contributing(links: Seq<Link>)
    ensures
        contributions(links) == contributing_only(links).map_values(|link: Link| link.value),
        contributions(links) == contributions(contributing_only(links)),
        contributions(links).len() == contributing_only(links).len(),
        forall|i: int|
            0 <= i < contributing_only(links).len() ==> (#[trigger] contributing_only(
                links,
            )[i]).contributing,
{
    let keep = |link: Link| link.contributing;
    let only = links.filter(keep);
    assert forall|i: int| 0 <= i < only.len() implies (#[trigger] only[i]).contributing by {
        links.lemma_filter_pred(keep, i);
    }
    lemma_filter_all(only);
}

/// Filtering changes nothing in a run of links that all contribute.
proof fn lemma_filter_all(links: Seq<Link>)
    requires
        forall|i: int| 0 <= i < links.len() ==> (#[trigger] links[i]).contributing,
    ensures
        links.filter(|link: Link| link.contributing) == links,
    decreases links.len(),
{
    let keep = |link: Link| link.contributing;
    reveal(Seq::filter);
    if links.len() > 0 {
        lemma_filter_all(links.drop_last());
        assert(links.drop_last().push(links.last()) =~= links);
    }
}

/// Arity collapse: no contributing link gives the empty result, exactly one
/// gives its bare result, and two or more give the ordered tuple of exactly
/// that many results.
pub proof fn lemma_arity_collapse(chain: ChainView)
    ensures
        chain.arity() == contributing_only(chain.links).len(),
        chain.arity() == 0 ==> chain.evaluation() == UnpackedView::Unit,
        chain.arity() == 1 ==> chain.evaluation() == UnpackedView::Single(
            contributing_only(chain.links)[0].value,
        ),
        chain.arity() >= 2 ==> chain.evaluation() == UnpackedView::Tuple(chain.aggregate()),
        chain.evaluation().elements() == chain.aggregate(),
{
    lemma_aggregate_of_contributing(chain.links);
    if chain.arity() == 1 {
        assert(chain.evaluation().elements() =~= chain.aggregate());
    }
    if chain.arity() == 0 {
        assert(chain.evaluation().elements() =~= chain.aggregate());
    }
}

/// Suppression purity: a suppressing link put anywhere into a chain leaves
/// the aggregate, and with it the value of every evaluation, as it was.
pub proof fn lemma_suppression_purity(chain: ChainView, k: int, link: Link)
    requires
        0 <= k <= chain.links.len(),
        !link.contributing,
    ensures
        contributions(chain.links.insert(k, link)) == chain.aggregate(),
        (ChainView { context: chain.context, links: chain.links.insert(k, link) }).evaluation()
            == chain.evaluation(),
        chain.pushed(link).evaluation() == chain.evaluation(),
{
    let front = chain.links.take(k);
    let back = chain.links.skip(k);
    assert(chain.links.insert(k, link) =~= front.push(link) + back);
    assert(chain.links =~= front + back);
    lemma_contributions_concat(front.push(link), back);
    lemma_contributions_concat(front, back);
    lemma_contributions_push(front, link);
    lemma_contributions_push(chain.links, link);
}

/// Evaluation order: what an evaluation reports is what the first `k` links
/// report, then what link `k` reports, then what the links behind it report.
pub proof fn lemma_reports_in_push_order(links: Seq<Link>, k: int)
    requires
        0 <= k < links.len(),
    ensures
        effects(links) == effects(links.take(k)) + links[k].emits + effects(links.skip(k + 1)),
{
    let front = links.take(k);
    let back = links.skip(k + 1);
    assert(links =~= front.push(links[k]) + back);
    lemma_effects_concat(front.push(links[k]), back);
    lemma_effects_push(front, links[k]);
}

/// Re-evaluation independence: a second evaluation of an unchanged chain
/// hands back the value of the first, and every item reports once more.
pub proof fn lemma_reevaluation(chain: ChainView, log: Seq<Diagnostic>)
    ensures
        ({
            let (first, after_first) = chain.evaluated(log);
            let (second, after_second) = chain.evaluated(after_first);
            &&& second == first
            &&& after_first == log + chain.reports()
            &&& after_second == log + chain.reports() + chain.reports()
        }),
{
}

/// Context immutability: no sequence of pushes changes the context type of a
/// chain.
pub proof fn lemma_context_immutable(chain: ChainView, links: Seq<Link>)
    ensures
        chain.pushed_all(links).context == chain.context,
        chain.pushed_all(links).original() == chain.original(),
{
    lemma_pushed_all_links(chain, links);
}

/// One push: an item, and whether its result is to join the aggregate.
pub struct Push<I> {
    pub item: I,
    pub contributing: bool,
}

/// The link that a push adds to a chain built for `original`.
pub open spec fn link_of<I: RetListItem>(push: Push<I>, original: TypeTag) -> Link {
    if push.contributing {
        contributing_link(push.item, original)
    } else {
        suppressing_link(push.item, original)
    }
}

/// The links that a run of pushes adds, in the order of the pushes.
pub open spec fn links_of<I: RetListItem>(pushes: Seq<Push<I>>, original: TypeTag) -> Seq<Link> {
    pushes.map_values(|push: Push<I>| link_of(push, original))
}

/// The results of the contributing pushes of a run, in the order of the
/// pushes.
pub open spec fn results_of<I: RetListItem>(pushes: Seq<Push<I>>, original: TypeTag) -> Seq<Value> {
    pushes.filter(|push: Push<I>| push.contributing).map_values(
        |push: Push<I>| push.item.spec_single_return(original),
    )
}

/// Whether every push of a run is accepted by a chain built for `original`:
/// each item can work with that context type, each item pushed for its
/// effect alone has an empty result, and the contributing pushes are no more
/// than the aggregate can hold.
pub open spec fn accepted<I: RetListItem>(pushes: Seq<Push<I>>, original: TypeTag) -> bool {
    &&& forall|i: int|
        0 <= i < pushes.len() ==> (#[trigger] pushes[i]).item.spec_accepts(original)
    &&& forall|i: int|
        0 <= i < pushes.len() && !(#[trigger] pushes[i]).contributing
            ==> pushes[i].item.spec_result_type(original) == TypeTag::Unit
    &&& results_of(pushes, original).len() <= MAX_ARITY
}

/// The aggregate of the links of a run of pushes holds the results of the
/// contributing pushes, in the order of the pushes.
pub proof fn lemma_contributions_of_pushes<I: RetListItem>(
    pushes: Seq<Push<I>>,
    original: TypeTag,
)
    ensures
        contributions(links_of(pushes, original)) == results_of(pushes, original),
    decreases pushes.len(),
{
    let keep = |push: Push<I>| push.contributing;
    let result = |push: Push<I>| push.item.spec_single_return(original);
    if pushes.len() == 0 {
        lemma_empty_chain();
        reveal(Seq::filter);
        assert(links_of(pushes, original) =~= Seq::<Link>::empty());
        assert(results_of(pushes, original) =~= Seq::<Value>::empty());
    } else {
        let front = pushes.drop_last();
        let last = pushes.last();
        assert(pushes =~= front.push(last));
        lemma_contributions_of_pushes(front, original);
        assert(links_of(pushes, original) =~= links_of(front, original).push(
            link_of(last, original),
        ));
        lemma_contributions_push(links_of(front, original), link_of(last, original));
        front.lemma_filter_push(last, keep);
        if last.contributing {
            front.filter(keep).lemma_push_map_commute(result, last);
        }
    }
}

/// Order preservation, for whole chains: start a chain, push any items in
/// any mix of contributing and suppressing pushes, and evaluate. The value is
/// the collapsed row of the results of the contributing items, in the order
/// in which they were pushed; the suppressing items, wherever they stand and
/// however many they are, leave no trace in it.
pub proof fn lemma_evaluation_of_pushes<I: RetListItem>(
    context: Option<TypeTag>,
    pushes: Seq<Push<I>>,
)
    ensures
        ({
            let original = context_type(context);
            let start = ChainView { context, links: Seq::empty() };
            let built = start.pushed_all(links_of(pushes, original));
            &&& built.links == links_of(pushes, original)
            &&& built.original() == original
            &&& built.aggregate() == results_of(pushes, original)
            &&& built.evaluation() == collapse(results_of(pushes, original))
        }),
{
    let original = context_type(context);
    let start = ChainView { context, links: Seq::empty() };
    let links = links_of(pushes, original);
    lemma_pushed_all_links(start, links);
    assert(Seq::<Link>::empty() + links =~= links);
    lemma_contributions_of_pushes(pushes, original);
}

/// A chain built by accepted pushes is well formed: its aggregate fits, and
/// nothing but unit values is ever dropped.
pub proof fn lemma_accepted_pushes_are_well_formed<I: RetListItem>(
    context: Option<TypeTag>,
    pushes: Seq<Push<I>>,
)
    requires
        accepted(pushes, context_type(context)),
    ensures
        (ChainView { context, links: Seq::empty() }).pushed_all(
            links_of(pushes, context_type(context)),
        ).well_formed(),
{
    let original = context_type(context);
    let links = links_of(pushes, original);
    lemma_evaluation_of_pushes(context, pushes);
    assert forall|i: int|
        0 <= i < links.len() && !(#[trigger] links[i]).contributing implies links[i].value
        == Value::Unit by {
        pushes[i].item.lemma_result_is_typed(original);
    }
}

} // verus!
