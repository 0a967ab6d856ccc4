//! Choosing the links of a digest: a few of the catalog's links that no
//! earlier digest held, drawn at random and without repetition.

use rand::seq::SliceRandom;
use vstd::prelude::*;
use vstd::seq_lib::*;
use vstd::set_lib::*;

use crate::notion::{LinkView, NotionLink, SentLink, SentView};

verus! {

/// How many links a digest holds at most.
pub const NUMBER_OF_LINKS_TO_FETCH: usize = 3;

/// The ids that a sent-log records, in the log's order.
pub open spec fn sent_ids(log: Seq<SentView>) -> Seq<Seq<char>> {
    log.map_values(|record: SentView| record.id)
}

/// The links of the catalog whose id is not among `sent`, in the catalog's
/// order.
pub open spec fn unsent(catalog: Seq<LinkView>, sent: Seq<Seq<char>>) -> Seq<LinkView> {
    catalog.filter(|link: LinkView| !sent.contains(link.link_id))
}

/// How many links are drawn where `available` can be drawn from.
pub open spec fn sample_size(available: nat) -> nat {
    if available > NUMBER_OF_LINKS_TO_FETCH {
        NUMBER_OF_LINKS_TO_FETCH as nat
    } else {
        available
    }
}

/// `order` holds each of the positions `0`, .., `n - 1` once.
pub open spec fn is_shuffle(order: Seq<usize>, n: nat) -> bool {
    &&& order.len() == n
    &&& forall|i: int| 0 <= i < order.len() ==> #[trigger] order[i] < n
    &&& order.no_duplicates()
}

/// The first `count` links in the order of the draw: the link at position
/// `order[0]`, then the one at `order[1]`, and so on.
pub open spec fn drawn(available: Seq<LinkView>, order: Seq<usize>, count: nat) -> Seq<LinkView> {
    Seq::new(count, |i: int| available[order[i] as int])
}

/// `selected` is a digest's worth of the catalog's unsent links: as many
/// as a digest holds, or all where there are fewer, standing at the first
/// places of some shuffle of the unsent links.
pub open spec fn is_selection(
    selected: Seq<LinkView>,
    catalog: Seq<LinkView>,
    log: Seq<SentView>,
) -> bool {
    let available = unsent(catalog, sent_ids(log));
    exists|order: Seq<usize>| #[trigger]
        is_shuffle(order, available.len()) && selected == drawn(
            available,
            order,
            sample_size(available.len()),
        )
}

/// No two links of the catalog have the same id.
pub open spec fn unique_ids(catalog: Seq<LinkView>) -> bool {
    forall|i: int, j: int|
        0 <= i < j < catalog.len() ==> (#[trigger] catalog[i]).link_id != (
        #[trigger] catalog[j]).link_id
}

/// The positions `0`, .., `n - 1`, in this order.
pub open spec fn positions(n: nat) -> Seq<usize> {
    Seq::new(n, |i: int| i as usize)
}

/// The ids that a sent-log records.
pub fn sent_link_ids(log: &Vec<SentLink>) -> (ids: Vec<String>)
    ensures
        ids.deep_view() == sent_ids(log.deep_view()),
{
    let mut ids: Vec<String> = Vec::new();
    let mut done: usize = 0;
    while done < log.len()
        invariant
            done <= log.len(),
            ids.deep_view() == sent_ids(log.deep_view()).take(done as int),
        decreases log.len() - done,
    {
        let ghost before = ids.deep_view();
        ids.push(log[done].id.clone());
        done = done + 1;
        assert(ids.deep_view() =~= before.push(log[done - 1].id@));
        assert(sent_ids(log.deep_view()).take(done as int) =~= before.push(log[done - 1].id@));
    }
    assert(sent_ids(log.deep_view()).take(done as int) =~= sent_ids(log.deep_view()));
    ids
}

/// Whether `id` is among `ids`.
pub fn contains_id(ids: &Vec<String>, id: &String) -> (found: bool)
    ensures
        found == ids.deep_view().contains(id@),
{
    let mut at: usize = 0;
    while at < ids.len()
        invariant
            at <= ids.len(),
            forall|i: int| 0 <= i < at ==> ids.deep_view()[i] != id@,
        decreases ids.len() - at,
    {
        if ids[at] == *id {
            assert(ids.deep_view()[at as int] == id@);
            return true;
        }
        at = at + 1;
    }
    false
}

/// The links of the catalog whose id is not among `sent`, in the catalog's
/// order.
pub fn filter_unsent(catalog: &Vec<NotionLink>, sent: &Vec<String>) -> (available: Vec<NotionLink>)
    ensures
        available.deep_view() == unsent(catalog.deep_view(), sent.deep_view()),
{
    let ghost keep = |link: LinkView| !sent.deep_view().contains(link.link_id);
    let mut available: Vec<NotionLink> = Vec::new();
    let mut done: usize = 0;
    proof {
        reveal(Seq::filter);
        assert(catalog.deep_view().take(0) =~= Seq::<LinkView>::empty());
    }
    while done < catalog.len()
        invariant
            done <= catalog.len(),
            keep == |link: LinkView| !sent.deep_view().contains(link.link_id),
            available.deep_view() == catalog.deep_view().take(done as int).filter(keep),
        decreases catalog.len() - done,
    {
        let ghost before = available.deep_view();
        let ghost seen = catalog.deep_view().take(done as int);
        let ghost link = catalog[done as int].deep_view();
        proof {
            seen.lemma_filter_push(link, keep);
            assert(catalog.deep_view().take(done + 1) =~= seen.push(link));
        }
        if !contains_id(sent, &catalog[done].link_id) {
            available.push(catalog[done].clone());
            assert(available.deep_view() =~= before.push(link));
        }
        done = done + 1;
    }
    assert(catalog.deep_view().take(done as int) =~= catalog.deep_view());
    available
}

/// The positions `0`, .., `n - 1`, in this order.
pub fn position_list(n: usize) -> (order: Vec<usize>)
    ensures
        order@ == positions(n as nat),
{
    let mut order: Vec<usize> = Vec::new();
    let mut next: usize = 0;
    while next < n
        invariant
            next <= n,
            order@ == positions(next as nat),
        decreases n - next,
    {
        order.push(next);
        next = next + 1;
        assert(order@ =~= positions(next as nat));
    }
    order
}

/// Reorders `order` at random: `shuffle` of `rand::seq::SliceRandom`, with
/// the generator of the current thread. It only swaps entries, so
/// afterwards `order` holds what it held before, each entry as often as
/// before. Which order comes out is left open.
#[verifier::external_body]
fn shuffle(order: &mut Vec<usize>)
    ensures
        final(order)@.to_multiset() == old(order)@.to_multiset(),
{
    let mut rng = rand::thread_rng();
    order.shuffle(&mut rng);
}

/// A sequence that holds what `positions(n)` holds, each entry as often,
/// holds each of the positions `0`, .., `n - 1` once.
pub proof fn lemma_rearranged_positions(order: Seq<usize>, n: nat)
    requires
        n <= usize::MAX,
        order.to_multiset() == positions(n).to_multiset(),
    ensures
        is_shuffle(order, n),
{
    broadcast use to_multiset_len;

    let first = positions(n);
    assert(order.len() == n) by {
        assert(order.to_multiset().len() == order.len());
        assert(first.to_multiset().len() == first.len());
    }
    assert forall|i: int| 0 <= i < order.len() implies #[trigger] order[i] < n by {
        assert(order.contains(order[i]));
        to_multiset_contains(order, order[i]);
        to_multiset_contains(first, order[i]);
        assert(first.contains(order[i]));
        let j = choose|j: int| 0 <= j < first.len() && first[j] == order[i];
        assert(first[j] == j);
    }
    assert(first.no_duplicates());
    first.lemma_multiset_has_no_duplicates();
    order.lemma_multiset_has_no_duplicates_conv();
}

/// The positions `0`, .., `n - 1` in a random order.
pub fn shuffled_positions(n: usize) -> (order: Vec<usize>)
    ensures
        is_shuffle(order@, n as nat),
{
    let mut order = position_list(n);
    shuffle(&mut order);
    proof {
        lemma_rearranged_positions(order@, n as nat);
    }
    order
}

/// The first `count` links in the order of the draw.
pub fn pick_links(available: &Vec<NotionLink>, order: &Vec<usize>, count: usize) -> (picked: Vec<
    NotionLink,
>)
    requires
        count <= order.len(),
        forall|i: int| 0 <= i < count ==> #[trigger] order[i] < available.len(),
    ensures
        picked.deep_view() == drawn(available.deep_view(), order@, count as nat),
{
    let mut picked: Vec<NotionLink> = Vec::new();
    let mut done: usize = 0;
    while done < count
        invariant
            done <= count <= order.len(),
            forall|i: int| 0 <= i < count ==> #[trigger] order[i] < available.len(),
            picked.deep_view() == drawn(available.deep_view(), order@, done as nat),
        decreases count - done,
    {
        let ghost before = picked.deep_view();
        let at = order[done];
        picked.push(available[at].clone());
        done = done + 1;
        assert(picked.deep_view() =~= before.push(available[at as int].deep_view()));
        assert(picked.deep_view() =~= drawn(available.deep_view(), order@, done as nat));
    }
    picked
}

/// How many links are drawn where `available` can be drawn from.
pub fn links_to_fetch(available: usize) -> (count: usize)
    ensures
        count == sample_size(available as nat),
{
    if available > NUMBER_OF_LINKS_TO_FETCH {
        NUMBER_OF_LINKS_TO_FETCH
    } else {
        available
    }
}

/// The links of the next digest: a random selection among the links of
/// the catalog that the sent-log does not record.
pub fn select_links(catalog: &Vec<NotionLink>, log: &Vec<SentLink>) -> (selected: Vec<NotionLink>)
    ensures
        is_selection(selected.deep_view(), catalog.deep_view(), log.deep_view()),
{
    let sent = sent_link_ids(log);
    let available = filter_unsent(catalog, &sent);
    let count = links_to_fetch(available.len());
    let order = shuffled_positions(available.len());
    let selected = pick_links(&available, &order, count);
    assert(is_shuffle(order@, available.deep_view().len()));
    selected
}

/// Among the unsent links of a catalog without repeated ids no id is
/// repeated either.
proof fn lemma_unsent_keeps_unique_ids(catalog: Seq<LinkView>, sent: Seq<Seq<char>>)
    requires
        unique_ids(catalog),
    ensures
        unique_ids(unsent(catalog, sent)),
    decreases catalog.len(),
{
    reveal(Seq::filter);
    if catalog.len() > 0 {
        let keep = |link: LinkView| !sent.contains(link.link_id);
        let rest = catalog.drop_last();
        let kept = rest.filter(keep);
        lemma_unsent_keeps_unique_ids(rest, sent);
        assert forall|i: int| 0 <= i < kept.len() implies (#[trigger] kept[i]).link_id
            != catalog.last().link_id by {
            assert(kept.contains(kept[i]));
            rest.lemma_filter_contains_rev(keep, kept[i]);
            let at = choose|at: int| 0 <= at < rest.len() && rest[at] == kept[i];
            assert(catalog[at] == kept[i]);
        }
    }
}

/// Where no link of the catalog was sent, every link is unsent.
proof fn lemma_unsent_of_fresh_catalog(catalog: Seq<LinkView>, sent: Seq<Seq<char>>)
    requires
        forall|i: int| 0 <= i < catalog.len() ==> !sent.contains((#[trigger] catalog[i]).link_id),
    ensures
        unsent(catalog, sent) == catalog,
    decreases catalog.len(),
{
    reveal(Seq::filter);
    if catalog.len() > 0 {
        lemma_unsent_of_fresh_catalog(catalog.drop_last(), sent);
        assert(catalog.drop_last().push(catalog.last()) =~= catalog);
    }
}

/// Where every link of the catalog was sent, none is unsent.
proof fn lemma_unsent_of_spent_catalog(catalog: Seq<LinkView>, sent: Seq<Seq<char>>)
    requires
        forall|i: int| 0 <= i < catalog.len() ==> sent.contains((#[trigger] catalog[i]).link_id),
    ensures
        unsent(catalog, sent).len() == 0,
    decreases catalog.len(),
{
    reveal(Seq::filter);
    if catalog.len() > 0 {
        lemma_unsent_of_spent_catalog(catalog.drop_last(), sent);
    }
}

/// A selection holds no link that an earlier digest held: none of its ids
/// is recorded in the sent-log. Each of its links is a link of the catalog.
pub proof fn lemma_selection_avoids_sent(
    selected: Seq<LinkView>,
    catalog: Seq<LinkView>,
    log: Seq<SentView>,
)
    requires
        is_selection(selected, catalog, log),
    ensures
        forall|i: int|
            0 <= i < selected.len() ==> !sent_ids(log).contains((#[trigger] selected[i]).link_id),
        forall|i: int| 0 <= i < selected.len() ==> catalog.contains(#[trigger] selected[i]),
{
    let sent = sent_ids(log);
    let keep = |link: LinkView| !sent.contains(link.link_id);
    let available = unsent(catalog, sent);
    let order = choose|order: Seq<usize>| #[trigger]
        is_shuffle(order, available.len()) && selected == drawn(
            available,
            order,
            sample_size(available.len()),
        );
    assert forall|i: int| 0 <= i < selected.len() implies !sent.contains(
        (#[trigger] selected[i]).link_id,
    ) && catalog.contains(selected[i]) by {
        let at = order[i] as int;
        assert(selected[i] == available[at]);
        catalog.lemma_filter_pred(keep, at);
        assert(available.contains(available[at]));
        catalog.lemma_filter_contains_rev(keep, available[at]);
    }
}

/// A selection holds as many links as a digest may, or every unsent link
/// where those are fewer; never more than a digest may.
pub proof fn lemma_selection_size(
    selected: Seq<LinkView>,
    catalog: Seq<LinkView>,
    log: Seq<SentView>,
)
    requires
        is_selection(selected, catalog, log),
    ensures
        selected.len() <= NUMBER_OF_LINKS_TO_FETCH,
        selected.len() <= catalog.len(),
        selected.len() == sample_size(unsent(catalog, sent_ids(log)).len()),
{
    let sent = sent_ids(log);
    catalog.lemma_filter_len(|link: LinkView| !sent.contains(link.link_id));
}

/// A selection from a catalog without repeated ids holds no id twice.
pub proof fn lemma_selection_has_distinct_ids(
    selected: Seq<LinkView>,
    catalog: Seq<LinkView>,
    log: Seq<SentView>,
)
    requires
        is_selection(selected, catalog, log),
        unique_ids(catalog),
    ensures
        unique_ids(selected),
{
    let available = unsent(catalog, sent_ids(log));
    let order = choose|order: Seq<usize>| #[trigger]
        is_shuffle(order, available.len()) && selected == drawn(
            available,
            order,
            sample_size(available.len()),
        );
    lemma_unsent_keeps_unique_ids(catalog, sent_ids(log));
    assert forall|i: int, j: int| 0 <= i < j < selected.len() implies (
    #[trigger] selected[i]).link_id != (#[trigger] selected[j]).link_id by {
        assert(order[i] != order[j]);
        if order[i] < order[j] {
            assert(available[order[i] as int].link_id != available[order[j] as int].link_id);
        } else {
            assert(available[order[j] as int].link_id != available[order[i] as int].link_id);
        }
    }
}

/// From an empty catalog nothing is selected.
pub proof fn lemma_empty_catalog_empty_selection(
    selected: Seq<LinkView>,
    catalog: Seq<LinkView>,
    log: Seq<SentView>,
)
    requires
        is_selection(selected, catalog, log),
        catalog.len() == 0,
    ensures
        selected.len() == 0,
{
    lemma_selection_size(selected, catalog, log);
}

/// From a catalog that holds fewer links than a digest may, none of them
/// sent before, every link is selected: the selection is as long as the
/// catalog, and each link of the catalog stands in it.
pub proof fn lemma_small_catalog_selected_whole(
    selected: Seq<LinkView>,
    catalog: Seq<LinkView>,
    log: Seq<SentView>,
)
    requires
        is_selection(selected, catalog, log),
        catalog.len() < NUMBER_OF_LINKS_TO_FETCH,
        forall|i: int|
            0 <= i < catalog.len() ==> !sent_ids(log).contains((#[trigger] catalog[i]).link_id),
    ensures
        selected.len() == catalog.len(),
        forall|i: int| 0 <= i < catalog.len() ==> selected.contains(#[trigger] catalog[i]),
{
    let available = unsent(catalog, sent_ids(log));
    lemma_unsent_of_fresh_catalog(catalog, sent_ids(log));
    let order = choose|order: Seq<usize>| #[trigger]
        is_shuffle(order, available.len()) && selected == drawn(
            available,
            order,
            sample_size(available.len()),
        );
    assert forall|i: int| 0 <= i < catalog.len() implies selected.contains(
        #[trigger] catalog[i],
    ) by {
        lemma_shuffle_reaches(order, catalog.len(), i);
        let at = choose|at: int| 0 <= at < order.len() && order[at] == i;
        assert(selected[at] == catalog[i]);
    }
}

/// A shuffle of `n` positions holds each of them.
proof fn lemma_shuffle_reaches(order: Seq<usize>, n: nat, position: int)
    requires
        is_shuffle(order, n),
        0 <= position < n,
    ensures
        exists|at: int| 0 <= at < order.len() && order[at] == position,
{
    let held = order.map_values(|entry: usize| entry as int);
    assert(held.no_duplicates()) by {
        assert forall|i: int, j: int|
            0 <= i < held.len() && 0 <= j < held.len() && i != j implies held[i] != held[j] by {
            assert(order[i] != order[j]);
        }
    }
    let all = Set::new(|p: int| 0 <= p < n);
    assert(all =~= set_int_range(0, n as int));
    lemma_int_range(0, n as int);
    held.unique_seq_to_set();
    assert(held.to_set().subset_of(all)) by {
        assert forall|p: int| held.to_set().contains(p) implies all.contains(p) by {
            let at = choose|at: int| 0 <= at < held.len() && held[at] == p;
            assert(order[at] < n);
        }
    }
    lemma_subset_equality(held.to_set(), all);
    assert(held.to_set().contains(position));
    let at = choose|at: int| 0 <= at < held.len() && held[at] == position;
    assert(order[at] == position);
}

/// Where every link of the catalog was sent before, nothing is selected.
pub proof fn lemma_spent_catalog_empty_selection(
    selected: Seq<LinkView>,
    catalog: Seq<LinkView>,
    log: Seq<SentView>,
)
    requires
        is_selection(selected, catalog, log),
        forall|i: int|
            0 <= i < catalog.len() ==> sent_ids(log).contains((#[trigger] catalog[i]).link_id),
    ensures
        selected.len() == 0,
{
    lemma_unsent_of_spent_catalog(catalog, sent_ids(log));
}

} // verus!
