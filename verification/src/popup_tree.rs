//! Walks over the popup tree: destruction order, the grace window of
//! dismissed popups, and which popup holds the topmost grab.

use vstd::prelude::*;
use vstd::multiset::Multiset;
use vstd::relations::{sorted_by, total_ordering};

use crate::popup::PopupId;

verus! {

/// A popup the compositor dismissed, kept alive until the app has seen its `Done`.
///
/// Generic over the state it holds, so the grace-window bookkeeping does not
/// depend on what a popup carries.
pub struct DismissedPopup<S> {
    pub id: PopupId,
    pub state: S,
    /// Its `Done` has been taken, so the next take may drop it.
    pub reported: bool,
}

/// The dismissed popups a take releases: those already reported, in order.
pub open spec fn released_part<S>(s: Seq<DismissedPopup<S>>) -> Seq<DismissedPopup<S>>
    decreases s.len(),
{
    if s.len() == 0 {
        Seq::empty()
    } else {
        let rest = released_part(s.drop_last());
        if s.last().reported {
            rest.push(s.last())
        } else {
            rest
        }
    }
}

/// The dismissed popups a take keeps: those not yet reported, in order, now
/// marked as reported.
pub open spec fn pending_part<S>(s: Seq<DismissedPopup<S>>) -> Seq<DismissedPopup<S>>
    decreases s.len(),
{
    if s.len() == 0 {
        Seq::empty()
    } else {
        let rest = pending_part(s.drop_last());
        if s.last().reported {
            rest
        } else {
            rest.push(DismissedPopup { id: s.last().id, state: s.last().state, reported: true })
        }
    }
}

/// Drops the dismissed popups whose `Done` an earlier take handed out, and marks the rest as
/// handed out by this one.
///
/// The released popups come back in dismissal order, children ahead of parents, so dropping the
/// vec front to back destroys them in the order xdg-shell requires.
pub fn release_dismissed<S>(dismissed: &mut Vec<DismissedPopup<S>>) -> (released: Vec<
    DismissedPopup<S>,
>)
    ensures
        released@ == released_part(old(dismissed)@),
        final(dismissed)@ == pending_part(old(dismissed)@),
{
    let mut all: Vec<DismissedPopup<S>> = Vec::new();
    std::mem::swap(&mut all, dismissed);
    let count = all.len();
    let ghost original = all@;
    let mut released: Vec<DismissedPopup<S>> = Vec::new();
    let mut pending: Vec<DismissedPopup<S>> = Vec::new();
    let mut remaining = all;
    let mut taken: usize = 0;
    while remaining.len() > 0
        invariant
            taken + remaining@.len() == original.len(),
            original.len() <= usize::MAX,
            remaining@ == original.skip(taken as int),
            released@ == released_part(original.take(taken as int)),
            pending@ == pending_part(original.take(taken as int)),
        decreases remaining@.len(),
    {
        let popup = remaining.remove(0);
        proof {
            assert(original.take(taken + 1).drop_last() =~= original.take(taken as int));
            assert(original.take(taken + 1).last() == popup);
        }
        if popup.reported {
            released.push(popup);
        } else {
            pending.push(DismissedPopup { id: popup.id, state: popup.state, reported: true });
        }
        taken = taken + 1;
        proof {
            assert(remaining@ =~= original.skip(taken as int));
        }
    }
    proof {
        assert(original.take(taken as int) =~= original);
    }
    *dismissed = pending;
    released
}

/// `popup` as a take keeps it: marked as reported.
pub open spec fn marked<S>(popup: DismissedPopup<S>) -> DismissedPopup<S> {
    DismissedPopup { id: popup.id, state: popup.state, reported: true }
}

proof fn lemma_parts_concat<S>(a: Seq<DismissedPopup<S>>, b: Seq<DismissedPopup<S>>)
    ensures
        released_part(a + b) == released_part(a) + released_part(b),
        pending_part(a + b) == pending_part(a) + pending_part(b),
    decreases b.len(),
{
    if b.len() == 0 {
        assert(a + b =~= a);
        assert(released_part(a) + released_part(b) =~= released_part(a));
        assert(pending_part(a) + pending_part(b) =~= pending_part(a));
    } else {
        lemma_parts_concat(a, b.drop_last());
        assert((a + b).drop_last() =~= a + b.drop_last());
        assert((a + b).last() == b.last());
        assert((released_part(a) + released_part(b.drop_last())).push(b.last()) =~= released_part(
            a,
        ) + released_part(b.drop_last()).push(b.last()));
        assert((pending_part(a) + pending_part(b.drop_last())).push(marked(b.last()))
            =~= pending_part(a) + pending_part(b.drop_last()).push(marked(b.last())));
    }
}

proof fn lemma_pending_all_reported<S>(s: Seq<DismissedPopup<S>>)
    ensures
        released_part(pending_part(s)) == pending_part(s),
        pending_part(pending_part(s)) == Seq::<DismissedPopup<S>>::empty(),
    decreases s.len(),
{
    if s.len() > 0 {
        lemma_pending_all_reported(s.drop_last());
        if !s.last().reported {
            let p = pending_part(s.drop_last());
            let q = p.push(marked(s.last()));
            assert(q.drop_last() =~= p);
        }
    }
}

/// A popup dismissed before a take is kept, and marked, by that take, and
/// released by the next one, whatever other popups were dismissed between
/// its own dismissal and the first take, or between the two takes. The first
/// take releases only what was already reported; the second releases
/// everything the first kept, the popup among them, and what of the later
/// popups was reported; nothing the first take kept survives the second.
pub proof fn lemma_dismissed_released_on_second_take<S>(
    before: Seq<DismissedPopup<S>>,
    popup: DismissedPopup<S>,
    between: Seq<DismissedPopup<S>>,
    later: Seq<DismissedPopup<S>>,
)
    requires
        !popup.reported,
    ensures
        released_part(before.push(popup) + between) == released_part(before) + released_part(
            between,
        ),
        pending_part(before.push(popup) + between) == pending_part(before).push(marked(popup))
            + pending_part(between),
        released_part(pending_part(before.push(popup) + between) + later) == pending_part(
            before,
        ).push(marked(popup)) + pending_part(between) + released_part(later),
        pending_part(pending_part(before.push(popup) + between) + later) == pending_part(later),
{
    let dismissed = before.push(popup) + between;
    let kept = pending_part(dismissed);
    assert(before.push(popup).drop_last() =~= before);
    lemma_parts_concat(before.push(popup), between);
    lemma_parts_concat(kept, later);
    lemma_pending_all_reported(dismissed);
    assert(Seq::<DismissedPopup<S>>::empty() + pending_part(later) =~= pending_part(later));
}

/// A link of the popup tree: a popup and the popup it is parented to.
pub type PopupLink = (PopupId, Option<PopupId>);

/// The popups linked under `parent` that are not in `seen`, in link order.
pub open spec fn link_children(links: Seq<PopupLink>, parent: PopupId, seen: Seq<PopupId>) -> Seq<
    PopupId,
>
    decreases links.len(),
{
    if links.len() == 0 {
        Seq::empty()
    } else {
        let rest = link_children(links.drop_last(), parent, seen);
        let link = links.last();
        if link.1 == Some(parent) && !seen.contains(link.0) {
            rest.push(link.0)
        } else {
            rest
        }
    }
}

/// `s` with `x` placed before the first element whose id is not below `x`'s.
pub open spec fn insert_by_id(s: Seq<PopupId>, x: PopupId) -> Seq<PopupId>
    decreases s.len(),
{
    if s.len() == 0 {
        seq![x]
    } else if x.0 <= s[0].0 {
        seq![x] + s
    } else {
        seq![s[0]] + insert_by_id(s.drop_first(), x)
    }
}

/// `s` sorted by id, ascending.
pub open spec fn sort_by_id(s: Seq<PopupId>) -> Seq<PopupId>
    decreases s.len(),
{
    if s.len() == 0 {
        Seq::empty()
    } else {
        insert_by_id(sort_by_id(s.drop_last()), s.last())
    }
}

/// How many links name a child that is not in `order`.
pub open spec fn unseen_links(links: Seq<PopupLink>, order: Seq<PopupId>) -> nat
    decreases links.len(),
{
    if links.len() == 0 {
        0
    } else {
        unseen_links(links.drop_last(), order) + if order.contains(links.last().0) {
            0nat
        } else {
            1nat
        }
    }
}

/// Breadth-first order from `order[next]` on: each popup in turn appends its
/// children not yet in the order, siblings sorted by id.
pub open spec fn breadth_first(links: Seq<PopupLink>, order: Seq<PopupId>, next: nat) -> Seq<
    PopupId,
>
    decreases unseen_links(links, order), order.len() - next,
{
    if next >= order.len() {
        order
    } else {
        let batch = sort_by_id(link_children(links, order[next as int], order));
        proof {
            lemma_batch_shrinks_unseen(links, order, order[next as int]);
        }
        breadth_first(links, order + batch, next + 1)
    }
}

/// Ids in ascending order.
pub open spec fn id_leq(a: PopupId, b: PopupId) -> bool {
    a.0 <= b.0
}

proof fn lemma_id_leq_total()
    ensures
        total_ordering(|a: PopupId, b: PopupId| id_leq(a, b)),
{
}

proof fn lemma_insert_by_id_sorted(s: Seq<PopupId>, x: PopupId)
    requires
        sorted_by(s, |a: PopupId, b: PopupId| id_leq(a, b)),
    ensures
        sorted_by(insert_by_id(s, x), |a: PopupId, b: PopupId| id_leq(a, b)),
        insert_by_id(s, x).to_multiset() =~= s.to_multiset().insert(x),
    decreases s.len(),
{
    broadcast use vstd::seq_lib::group_to_multiset_ensures;
    broadcast use vstd::multiset::group_multiset_axioms;
    broadcast use vstd::multiset::lemma_multiset_empty_len;

    let leq = |a: PopupId, b: PopupId| id_leq(a, b);
    if s.len() == 0 {
        assert(insert_by_id(s, x) =~= Seq::<PopupId>::empty().push(x));
        assert(s =~= Seq::<PopupId>::empty());
    } else if x.0 <= s[0].0 {
        let r = insert_by_id(s, x);
        assert(r =~= seq![x] + s);
        assert forall|i: int, j: int| 0 <= i < j < r.len() implies #[trigger] leq(r[i], r[j]) by {
            if i == 0 {
                assert(leq(s[0], s[j - 1]) || j == 1);
            } else {
                assert(leq(s[i - 1], s[j - 1]));
            }
        }
        vstd::seq_lib::lemma_seq_union_to_multiset_commutative(seq![x], s);
        vstd::seq_lib::lemma_multiset_commutative(seq![x], s);
        assert(seq![x] =~= Seq::<PopupId>::empty().push(x));
        assert(Seq::<PopupId>::empty().to_multiset().len() == 0);
    } else {
        let tail = s.drop_first();
        assert forall|i: int, j: int| 0 <= i < j < tail.len() implies #[trigger] leq(tail[i], tail[j]) by {
            assert(leq(s[i + 1], s[j + 1]));
        }
        lemma_insert_by_id_sorted(tail, x);
        let t = insert_by_id(tail, x);
        let r = insert_by_id(s, x);
        assert(r =~= seq![s[0]] + t);
        lemma_insert_by_id(tail, x);
        assert forall|i: int, j: int| 0 <= i < j < r.len() implies #[trigger] leq(r[i], r[j]) by {
            if i == 0 {
                assert(t.contains(r[j]));
                if r[j] != x {
                    assert(tail.contains(r[j]));
                    let k = choose|k: int| 0 <= k < tail.len() && tail[k] == r[j];
                    assert(leq(s[0], s[k + 1]));
                }
            } else {
                assert(leq(t[i - 1], t[j - 1]));
            }
        }
        vstd::seq_lib::lemma_multiset_commutative(seq![s[0]], t);
        vstd::seq_lib::lemma_multiset_commutative(seq![s[0]], tail);
        assert(s =~= seq![s[0]] + tail);
        assert(seq![s[0]] =~= Seq::<PopupId>::empty().push(s[0]));
        assert(Seq::<PopupId>::empty().to_multiset().len() == 0);
    }
}

proof fn lemma_sort_by_id_sorted(s: Seq<PopupId>)
    ensures
        sorted_by(sort_by_id(s), |a: PopupId, b: PopupId| id_leq(a, b)),
        sort_by_id(s).to_multiset() =~= s.to_multiset(),
    decreases s.len(),
{
    broadcast use vstd::seq_lib::group_to_multiset_ensures;

    if s.len() == 0 {
        assert(sort_by_id(s) =~= Seq::<PopupId>::empty());
    } else {
        lemma_sort_by_id_sorted(s.drop_last());
        lemma_insert_by_id_sorted(sort_by_id(s.drop_last()), s.last());
        assert(s =~= s.drop_last().push(s.last()));
    }
}

/// Sorting by id depends only on which ids there are, however many times
/// each: two sequences with the same elements sort the same.
proof fn lemma_sort_by_id_unique(s1: Seq<PopupId>, s2: Seq<PopupId>)
    requires
        s1.to_multiset() =~= s2.to_multiset(),
    ensures
        sort_by_id(s1) == sort_by_id(s2),
{
    lemma_sort_by_id_sorted(s1);
    lemma_sort_by_id_sorted(s2);
    lemma_id_leq_total();
    vstd::seq_lib::lemma_sorted_unique(
        sort_by_id(s1),
        sort_by_id(s2),
        |a: PopupId, b: PopupId| id_leq(a, b),
    );
}

/// How often `y` is a child of `parent` in `links`, outside `seen`, as the
/// number of links naming it under `parent`.
proof fn lemma_link_children_count(links: Seq<PopupLink>, parent: PopupId, seen: Seq<PopupId>, y: PopupId)
    ensures
        link_children(links, parent, seen).to_multiset().count(y) == if seen.contains(y) {
            0
        } else {
            links.to_multiset().count((y, Some(parent)))
        },
    decreases links.len(),
{
    broadcast use vstd::seq_lib::group_to_multiset_ensures;
    broadcast use vstd::multiset::group_multiset_axioms;
    broadcast use vstd::multiset::lemma_multiset_empty_len;

    if links.len() == 0 {
        assert(link_children(links, parent, seen) =~= Seq::<PopupId>::empty());
        assert(links =~= Seq::<PopupLink>::empty());
        assert(Seq::<PopupId>::empty().to_multiset().len() == 0);
        assert(Seq::<PopupLink>::empty().to_multiset().len() == 0);
    } else {
        let init = links.drop_last();
        lemma_link_children_count(init, parent, seen, y);
        assert(links =~= init.push(links.last()));
    }
}

/// The children a batch collects depend only on which links there are.
proof fn lemma_link_children_perm(
    links1: Seq<PopupLink>,
    links2: Seq<PopupLink>,
    parent: PopupId,
    seen: Seq<PopupId>,
)
    requires
        links1.to_multiset() =~= links2.to_multiset(),
    ensures
        link_children(links1, parent, seen).to_multiset() =~= link_children(
            links2,
            parent,
            seen,
        ).to_multiset(),
{
    assert forall|y: PopupId|
        link_children(links1, parent, seen).to_multiset().count(y) == link_children(
            links2,
            parent,
            seen,
        ).to_multiset().count(y) by {
        lemma_link_children_count(links1, parent, seen, y);
        lemma_link_children_count(links2, parent, seen, y);
    }
}

proof fn lemma_breadth_first_perm(
    links1: Seq<PopupLink>,
    links2: Seq<PopupLink>,
    order: Seq<PopupId>,
    next: nat,
)
    requires
        links1.to_multiset() =~= links2.to_multiset(),
    ensures
        breadth_first(links1, order, next) == breadth_first(links2, order, next),
    decreases unseen_links(links1, order), order.len() - next,
{
    if next < order.len() {
        let parent = order[next as int];
        lemma_link_children_perm(links1, links2, parent, order);
        lemma_sort_by_id_unique(
            link_children(links1, parent, order),
            link_children(links2, parent, order),
        );
        lemma_batch_shrinks_unseen(links1, order, parent);
        let batch = sort_by_id(link_children(links1, parent, order));
        lemma_breadth_first_perm(links1, links2, order + batch, next + 1);
    }
}

/// The destruction order does not depend on the order the links are given
/// in: any rearrangement of the same links walks the same way, siblings
/// being ordered by id alone.
pub proof fn lemma_subtree_order_ignores_link_order(
    links1: Seq<PopupLink>,
    links2: Seq<PopupLink>,
    id: PopupId,
)
    requires
        links1.to_multiset() =~= links2.to_multiset(),
    ensures
        subtree_order(links1, id) == subtree_order(links2, id),
{
    lemma_breadth_first_perm(links1, links2, seq![id], 0);
}

/// `id` and every popup below it, each child ahead of its parent.
pub open spec fn subtree_order(links: Seq<PopupLink>, id: PopupId) -> Seq<PopupId> {
    breadth_first(links, seq![id], 0).reverse()
}

proof fn lemma_insert_by_id(s: Seq<PopupId>, x: PopupId)
    ensures
        insert_by_id(s, x).len() == s.len() + 1,
        forall|y: PopupId| #[trigger] insert_by_id(s, x).contains(y) <==> (y == x || s.contains(y)),
    decreases s.len(),
{
    if s.len() == 0 {
        assert(insert_by_id(s, x) =~= seq![x]);
        assert forall|y: PopupId| #[trigger] insert_by_id(s, x).contains(y) <==> (y == x || s.contains(y)) by {
            if insert_by_id(s, x).contains(y) {
                assert(insert_by_id(s, x)[0] == x);
            }
            if y == x {
                assert(insert_by_id(s, x)[0] == x);
            }
        }
    } else if x.0 <= s[0].0 {
        let r = insert_by_id(s, x);
        assert(r =~= seq![x] + s);
        assert forall|y: PopupId| #[trigger] r.contains(y) <==> (y == x || s.contains(y)) by {
            if r.contains(y) {
                let i = choose|i: int| 0 <= i < r.len() && r[i] == y;
                if i > 0 {
                    assert(s[i - 1] == y);
                }
            }
            if y == x {
                assert(r[0] == x);
            }
            if s.contains(y) {
                let j = choose|j: int| 0 <= j < s.len() && s[j] == y;
                assert(r[j + 1] == y);
            }
        }
    } else {
        let tail = s.drop_first();
        lemma_insert_by_id(tail, x);
        let r = insert_by_id(s, x);
        assert(r =~= seq![s[0]] + insert_by_id(tail, x));
        assert forall|y: PopupId| #[trigger] r.contains(y) <==> (y == x || s.contains(y)) by {
            if r.contains(y) {
                let i = choose|i: int| 0 <= i < r.len() && r[i] == y;
                if i == 0 {
                    assert(s[0] == y);
                } else {
                    assert(insert_by_id(tail, x)[i - 1] == y);
                    assert(insert_by_id(tail, x).contains(y));
                    if tail.contains(y) {
                        let j = choose|j: int| 0 <= j < tail.len() && tail[j] == y;
                        assert(s[j + 1] == y);
                    }
                }
            }
            if y == x {
                assert(insert_by_id(tail, x).contains(y));
                let i = choose|i: int| 0 <= i < insert_by_id(tail, x).len() && insert_by_id(tail, x)[i] == y;
                assert(r[i + 1] == y);
            }
            if s.contains(y) {
                let j = choose|j: int| 0 <= j < s.len() && s[j] == y;
                if j == 0 {
                    assert(r[0] == y);
                } else {
                    assert(tail[j - 1] == y);
                    assert(insert_by_id(tail, x).contains(y));
                    let i = choose|i: int| 0 <= i < insert_by_id(tail, x).len() && insert_by_id(tail, x)[i] == y;
                    assert(r[i + 1] == y);
                }
            }
        }
    }
}

proof fn lemma_sort_by_id(s: Seq<PopupId>)
    ensures
        sort_by_id(s).len() == s.len(),
        forall|y: PopupId| #[trigger] sort_by_id(s).contains(y) <==> s.contains(y),
    decreases s.len(),
{
    if s.len() > 0 {
        let init = s.drop_last();
        lemma_sort_by_id(init);
        lemma_insert_by_id(sort_by_id(init), s.last());
        assert forall|y: PopupId| #[trigger] sort_by_id(s).contains(y) <==> s.contains(y) by {
            if s.contains(y) {
                let j = choose|j: int| 0 <= j < s.len() && s[j] == y;
                if j < s.len() - 1 {
                    assert(init[j] == y);
                    assert(init.contains(y));
                }
            }
            if init.contains(y) {
                let j = choose|j: int| 0 <= j < init.len() && init[j] == y;
                assert(s[j] == y);
            }
        }
    }
}

proof fn lemma_link_children(links: Seq<PopupLink>, parent: PopupId, seen: Seq<PopupId>)
    ensures
        forall|y: PopupId| #[trigger]
            link_children(links, parent, seen).contains(y) <==> (exists|i: int|
                0 <= i < links.len() && links[i].0 == y && links[i].1 == Some(parent) && !seen.contains(
                    y,
                )),
    decreases links.len(),
{
    if links.len() > 0 {
        let init = links.drop_last();
        lemma_link_children(init, parent, seen);
        let r = link_children(links, parent, seen);
        let ri = link_children(init, parent, seen);
        assert forall|y: PopupId| #[trigger]
            r.contains(y) <==> (exists|i: int|
                0 <= i < links.len() && links[i].0 == y && links[i].1 == Some(parent) && !seen.contains(
                    y,
                )) by {
            if r.contains(y) {
                let k = choose|k: int| 0 <= k < r.len() && r[k] == y;
                if k < ri.len() {
                    assert(ri.contains(y));
                    let i = choose|i: int|
                        0 <= i < init.len() && init[i].0 == y && init[i].1 == Some(parent)
                            && !seen.contains(y);
                    assert(links[i] == init[i]);
                } else {
                    assert(links[links.len() - 1].0 == y);
                }
            }
            if exists|i: int|
                0 <= i < links.len() && links[i].0 == y && links[i].1 == Some(parent) && !seen.contains(
                    y,
                ) {
                let i = choose|i: int|
                    0 <= i < links.len() && links[i].0 == y && links[i].1 == Some(parent)
                        && !seen.contains(y);
                if i < links.len() - 1 {
                    assert(init[i] == links[i]);
                    assert(ri.contains(y));
                    let k = choose|k: int| 0 <= k < ri.len() && ri[k] == y;
                    assert(r[k] == y);
                } else {
                    assert(r[r.len() - 1] == y);
                }
            }
        }
    }
}

/// Growing the order never adds unseen links, and adding the child of an
/// unseen link removes at least that one.
proof fn lemma_unseen_links_monotone(links: Seq<PopupLink>, small: Seq<PopupId>, big: Seq<PopupId>)
    requires
        forall|y: PopupId| small.contains(y) ==> #[trigger] big.contains(y),
    ensures
        unseen_links(links, big) <= unseen_links(links, small),
        (exists|i: int| 0 <= i < links.len() && !small.contains(links[i].0) && big.contains(links[i].0))
            ==> unseen_links(links, big) < unseen_links(links, small),
    decreases links.len(),
{
    if links.len() > 0 {
        let init = links.drop_last();
        lemma_unseen_links_monotone(init, small, big);
        if exists|i: int| 0 <= i < links.len() && !small.contains(links[i].0) && big.contains(links[i].0) {
            let i = choose|i: int| 0 <= i < links.len() && !small.contains(links[i].0) && big.contains(links[i].0);
            if i < links.len() - 1 {
                assert(init[i] == links[i]);
            }
        }
    }
}

/// Expanding a popup either adds nothing or takes at least one link out of
/// the unseen ones, so the breadth-first walk ends.
pub proof fn lemma_batch_shrinks_unseen(links: Seq<PopupLink>, order: Seq<PopupId>, parent: PopupId)
    ensures
        ({
            let batch = sort_by_id(link_children(links, parent, order));
            &&& batch.len() == 0 ==> order + batch == order
            &&& batch.len() > 0 ==> unseen_links(links, order + batch) < unseen_links(links, order)
        }),
{
    let children = link_children(links, parent, order);
    let batch = sort_by_id(children);
    lemma_sort_by_id(children);
    lemma_link_children(links, parent, order);
    if batch.len() == 0 {
        assert(order + batch =~= order);
    } else {
        let big = order + batch;
        assert forall|y: PopupId| order.contains(y) implies #[trigger] big.contains(y) by {
            let j = choose|j: int| 0 <= j < order.len() && order[j] == y;
            assert(big[j] == y);
        }
        assert(batch.contains(batch[0]));
        let y = batch[0];
        assert(children.contains(y));
        let i = choose|i: int|
            0 <= i < links.len() && links[i].0 == y && links[i].1 == Some(parent) && !order.contains(y);
        assert(big[order.len() as int] == y);
        assert(big.contains(links[i].0));
        lemma_unseen_links_monotone(links, order, big);
    }
}

/// What stays true of a breadth-first order as it grows: it starts with the
/// root, every later popup is linked under an earlier one, and every popup
/// already expanded has all its linked children in the order.
pub open spec fn walk_invariant(links: Seq<PopupLink>, order: Seq<PopupId>, next: nat) -> bool {
    &&& order.len() >= 1
    &&& next <= order.len()
    &&& linked_below_earlier(links, order)
    &&& expanded_are_closed(links, order, next)
}

/// `links` parents `child` to `parent`.
pub open spec fn linked_under(links: Seq<PopupLink>, child: PopupId, parent: PopupId) -> bool {
    links.contains((child, Some(parent)))
}

/// `order[j]` is linked under some popup before it in `order`.
pub open spec fn has_earlier_parent(links: Seq<PopupLink>, order: Seq<PopupId>, j: int) -> bool {
    exists|k: int| 0 <= k < j && #[trigger] linked_under(links, order[j], order[k])
}

/// `order[a]` is linked under some popup after it in `order`.
pub open spec fn has_later_parent(links: Seq<PopupLink>, order: Seq<PopupId>, a: int) -> bool {
    exists|b: int| a < b < order.len() && #[trigger] linked_under(links, order[a], order[b])
}

/// Every popup after the first is linked under a popup before it.
pub open spec fn linked_below_earlier(links: Seq<PopupLink>, order: Seq<PopupId>) -> bool {
    forall|j: int| 1 <= j < order.len() ==> #[trigger] has_earlier_parent(links, order, j)
}

/// Every popup among the first `next` has all popups linked under it in the order.
pub open spec fn expanded_are_closed(links: Seq<PopupLink>, order: Seq<PopupId>, next: nat) -> bool {
    forall|k: int, i: int|
        0 <= k < next && 0 <= i < links.len() && #[trigger] links[i].1 == Some(#[trigger] order[k])
            ==> order.contains(links[i].0)
}

proof fn lemma_walk_step_links(links: Seq<PopupLink>, order: Seq<PopupId>, next: nat)
    requires
        walk_invariant(links, order, next),
        next < order.len(),
    ensures
        linked_below_earlier(links, order + sort_by_id(link_children(links, order[next as int], order))),
{
    let parent = order[next as int];
    let children = link_children(links, parent, order);
    let batch = sort_by_id(children);
    let big = order + batch;
    lemma_sort_by_id(children);
    lemma_link_children(links, parent, order);
    assert forall|j: int| 1 <= j < big.len() implies #[trigger] has_earlier_parent(links, big, j) by {
        if j < order.len() {
            assert(big[j] == order[j]);
            assert(has_earlier_parent(links, order, j));
            let k = choose|k: int| 0 <= k < j && #[trigger] linked_under(links, order[j], order[k]);
            assert(big[k] == order[k]);
            assert(linked_under(links, big[j], big[k]));
        } else {
            let y = big[j];
            assert(batch[j - order.len()] == y);
            assert(batch.contains(y));
            assert(children.contains(y));
            let i = choose|i: int|
                0 <= i < links.len() && links[i].0 == y && links[i].1 == Some(parent)
                    && !order.contains(y);
            assert(big[next as int] == parent);
            assert(links[i] == (big[j], Some(big[next as int])));
            assert(linked_under(links, big[j], big[next as int]));
        }
    }
}

proof fn lemma_walk_step_closure(links: Seq<PopupLink>, order: Seq<PopupId>, next: nat)
    requires
        walk_invariant(links, order, next),
        next < order.len(),
    ensures
        expanded_are_closed(
            links,
            order + sort_by_id(link_children(links, order[next as int], order)),
            next + 1,
        ),
{
    let parent = order[next as int];
    let children = link_children(links, parent, order);
    let batch = sort_by_id(children);
    let big = order + batch;
    lemma_sort_by_id(children);
    lemma_link_children(links, parent, order);
    assert forall|k: int, i: int|
        0 <= k < next + 1 && 0 <= i < links.len() && #[trigger] links[i].1 == Some(#[trigger] big[k])
            implies big.contains(links[i].0) by {
        assert(big[k] == order[k]);
        if order.contains(links[i].0) {
            let j = choose|j: int| 0 <= j < order.len() && order[j] == links[i].0;
            assert(big[j] == links[i].0);
        } else {
            assert(k == next);
            assert(children.contains(links[i].0));
            assert(batch.contains(links[i].0));
            let j = choose|j: int| 0 <= j < batch.len() && batch[j] == links[i].0;
            assert(big[order.len() + j] == links[i].0);
        }
    }
}

proof fn lemma_walk_step(links: Seq<PopupLink>, order: Seq<PopupId>, next: nat)
    requires
        walk_invariant(links, order, next),
        next < order.len(),
    ensures
        walk_invariant(
            links,
            order + sort_by_id(link_children(links, order[next as int], order)),
            next + 1,
        ),
{
    lemma_walk_step_links(links, order, next);
    lemma_walk_step_closure(links, order, next);
}

proof fn lemma_breadth_first(links: Seq<PopupLink>, order: Seq<PopupId>, next: nat)
    requires
        walk_invariant(links, order, next),
    ensures
        walk_invariant(links, breadth_first(links, order, next), breadth_first(links, order, next).len()),
        breadth_first(links, order, next)[0] == order[0],
    decreases unseen_links(links, order), order.len() - next,
{
    if next < order.len() {
        let batch = sort_by_id(link_children(links, order[next as int], order));
        lemma_batch_shrinks_unseen(links, order, order[next as int]);
        lemma_walk_step(links, order, next);
        lemma_breadth_first(links, order + batch, next + 1);
        assert((order + batch)[0] == order[0]);
    }
}

/// The destruction order of a subtree starts with the deepest popups and
/// ends with the root itself; every popup other than the root comes ahead of
/// a popup it is linked under, and no popup linked under a member is left out.
pub proof fn lemma_subtree_order(links: Seq<PopupLink>, id: PopupId)
    ensures
        subtree_order(links, id).len() >= 1,
        subtree_order(links, id).last() == id,
        forall|a: int|
            0 <= a < subtree_order(links, id).len() - 1 ==> #[trigger] has_later_parent(
                links,
                subtree_order(links, id),
                a,
            ),
        forall|x: PopupId, i: int|
            #![trigger subtree_order(links, id).contains(x), links[i]]
            subtree_order(links, id).contains(x) && 0 <= i < links.len() && links[i].1 == Some(x)
                ==> subtree_order(links, id).contains(links[i].0),
{
    let start = seq![id];
    assert(walk_invariant(links, start, 0));
    lemma_breadth_first(links, start, 0);
    let order = breadth_first(links, start, 0);
    let r = subtree_order(links, id);
    assert(r == order.reverse());
    let n = order.len();
    assert(r[n - 1] == order[0]);
    assert forall|a: int| 0 <= a < r.len() - 1 implies #[trigger] has_later_parent(links, r, a) by {
        let j = n - 1 - a;
        assert(r[a] == order[j]);
        assert(1 <= j < n);
        assert(has_earlier_parent(links, order, j));
        let k = choose|k: int| 0 <= k < j && #[trigger] linked_under(links, order[j], order[k]);
        assert(r[n - 1 - k] == order[k]);
        assert(linked_under(links, r[a], r[n - 1 - k]));
    }
    assert forall|x: PopupId, i: int|
        #![trigger r.contains(x), links[i]]
        r.contains(x) && 0 <= i < links.len() && links[i].1 == Some(x) implies r.contains(links[i].0) by {
        let a = choose|a: int| 0 <= a < r.len() && r[a] == x;
        let k = n - 1 - a;
        assert(order[k] == x);
        assert(links[i].1 == Some(order[k]));
        assert(order.contains(links[i].0));
        let j = choose|j: int| 0 <= j < n && order[j] == links[i].0;
        assert(r[n - 1 - j] == links[i].0);
    }
}

/// Whether `ids` holds `id`.
fn contains_id(ids: &[PopupId], id: PopupId) -> (found: bool)
    ensures
        found == ids@.contains(id),
{
    let mut i: usize = 0;
    while i < ids.len()
        invariant
            i <= ids@.len(),
            forall|j: int| 0 <= j < i ==> ids@[j] != id,
        decreases ids@.len() - i,
    {
        if ids[i].0 == id.0 {
            assert(ids@[i as int] == id);
            return true;
        }
        i = i + 1;
    }
    false
}

/// The popups linked under `parent` that are not yet in `order`, in link order.
fn collect_children(links: &Vec<PopupLink>, parent: PopupId, order: &Vec<PopupId>) -> (children: Vec<
    PopupId,
>)
    ensures
        children@ == link_children(links@, parent, order@),
{
    let mut children: Vec<PopupId> = Vec::new();
    let mut i: usize = 0;
    while i < links.len()
        invariant
            i <= links@.len(),
            children@ == link_children(links@.take(i as int), parent, order@),
        decreases links@.len() - i,
    {
        let (child, link) = links[i];
        proof {
            assert(links@.take(i + 1).drop_last() =~= links@.take(i as int));
            assert(links@.take(i + 1).last() == links@[i as int]);
        }
        let under_parent = match link {
            Some(p) => p.0 == parent.0,
            None => false,
        };
        if under_parent && !contains_id(order.as_slice(), child) {
            children.push(child);
        }
        i = i + 1;
    }
    proof {
        assert(links@.take(links@.len() as int) =~= links@);
    }
    children
}

/// Inserting `x` into `s` puts it at the first position whose id is not
/// below `x`'s.
proof fn lemma_insert_by_id_at(s: Seq<PopupId>, x: PopupId, k: int)
    requires
        0 <= k <= s.len(),
        forall|j: int| 0 <= j < k ==> s[j].0 < x.0,
        k < s.len() ==> x.0 <= s[k].0,
    ensures
        insert_by_id(s, x) == s.insert(k, x),
    decreases s.len(),
{
    if s.len() == 0 {
        assert(s.insert(k, x) =~= seq![x]);
    } else if x.0 <= s[0].0 {
        assert(k == 0);
        assert(s.insert(0, x) =~= seq![x] + s);
    } else {
        let tail = s.drop_first();
        assert(k >= 1);
        lemma_insert_by_id_at(tail, x, k - 1);
        assert(s.insert(k, x) =~= seq![s[0]] + tail.insert(k - 1, x));
    }
}

/// `ids` sorted by id, ascending.
fn sort_ids(ids: &Vec<PopupId>) -> (sorted: Vec<PopupId>)
    ensures
        sorted@ == sort_by_id(ids@),
{
    let mut sorted: Vec<PopupId> = Vec::new();
    let mut i: usize = 0;
    while i < ids.len()
        invariant
            i <= ids@.len(),
            sorted@ == sort_by_id(ids@.take(i as int)),
        decreases ids@.len() - i,
    {
        let x = ids[i];
        let mut k: usize = 0;
        while k < sorted.len() && sorted[k].0 < x.0
            invariant
                k <= sorted@.len(),
                forall|j: int| 0 <= j < k ==> sorted@[j].0 < x.0,
            decreases sorted@.len() - k,
        {
            k = k + 1;
        }
        proof {
            lemma_insert_by_id_at(sorted@, x, k as int);
            assert(ids@.take(i + 1).drop_last() =~= ids@.take(i as int));
            assert(ids@.take(i + 1).last() == x);
        }
        sorted.insert(k, x);
        i = i + 1;
    }
    proof {
        assert(ids@.take(ids@.len() as int) =~= ids@);
    }
    sorted
}

/// `id` and every popup below it, each child ahead of its parent: the order xdg-shell requires
/// popups be destroyed in. Siblings are sorted by id only to keep the order deterministic.
///
/// `links` pairs each popup with the popup it is parented to. A malformed cycle does not make
/// the walk loop: a popup already in the order is never added again under another parent.
pub fn subtree_leaf_first(links: Vec<PopupLink>, id: PopupId) -> (order: Vec<PopupId>)
    ensures
        order@ == subtree_order(links@, id),
        order@.len() >= 1,
        order@.last() == id,
        forall|a: int|
            0 <= a < order@.len() - 1 ==> #[trigger] has_later_parent(links@, order@, a),
        forall|x: PopupId, i: int|
            #![trigger order@.contains(x), links@[i]]
            order@.contains(x) && 0 <= i < links@.len() && links@[i].1 == Some(x) ==> order@.contains(
                links@[i].0,
            ),
{
    // Breadth-first from `id`, so the reversal puts every child ahead of its parent.
    let mut order: Vec<PopupId> = Vec::new();
    order.push(id);
    let mut next: usize = 0;
    proof {
        assert(order@ =~= seq![id]);
    }
    while next < order.len()
        invariant
            next <= order@.len(),
            breadth_first(links@, order@, next as nat) == breadth_first(links@, seq![id], 0),
        decreases unseen_links(links@, order@), order@.len() - next,
    {
        let parent = order[next];
        let children = collect_children(&links, parent, &order);
        let batch = sort_ids(&children);
        let ghost before = order@;
        proof {
            lemma_batch_shrinks_unseen(links@, before, parent);
        }
        let mut b: usize = 0;
        while b < batch.len()
            invariant
                b <= batch@.len(),
                order@ == before + batch@.take(b as int),
            decreases batch@.len() - b,
        {
            order.push(batch[b]);
            b = b + 1;
            proof {
                assert(batch@.take(b as int) =~= batch@.take(b - 1).push(batch@[b - 1]));
            }
        }
        proof {
            assert(batch@.take(batch@.len() as int) =~= batch@);
        }
        next = next + 1;
    }
    let mut reversed: Vec<PopupId> = Vec::new();
    let mut r: usize = order.len();
    while r > 0
        invariant
            r <= order@.len(),
            reversed@ == order@.subrange(r as int, order@.len() as int).reverse(),
        decreases r,
    {
        r = r - 1;
        reversed.push(order[r]);
        proof {
            assert(order@.subrange(r as int, order@.len() as int).reverse() =~= order@.subrange(
                r + 1,
                order@.len() as int,
            ).reverse().push(order@[r as int]));
        }
    }
    proof {
        assert(order@.subrange(0, order@.len() as int) =~= order@);
        lemma_subtree_order(links@, id);
    }
    reversed
}

/// Whether `parent` holds the topmost grab: some live popup with its id grabbed, and no
/// popup that grabbed has a larger id.
pub open spec fn topmost_grab_holder(popups: Seq<(PopupId, bool)>, parent: PopupId) -> bool {
    &&& exists|i: int| 0 <= i < popups.len() && popups[i].1 && #[trigger] popups[i].0 == parent
    &&& forall|i: int| 0 <= i < popups.len() && #[trigger] popups[i].1 ==> popups[i].0.0 <= parent.0
}

/// Whether `parent` holds the topmost grab, the only popup xdg-shell lets a grabbing popup be
/// parented to. Grabs stack per seat, so that is the newest popup that grabbed.
///
/// `popups` pairs each live popup with whether it grabbed. Ids grow with creation, which is when
/// grabs are taken.
pub fn holds_topmost_grab(popups: Vec<(PopupId, bool)>, parent: PopupId) -> (holds: bool)
    ensures
        holds == topmost_grab_holder(popups@, parent),
{
    let mut newest: Option<u64> = None;
    let mut i: usize = 0;
    while i < popups.len()
        invariant
            i <= popups@.len(),
            match newest {
                None => forall|j: int| 0 <= j < i ==> !(#[trigger] popups@[j]).1,
                Some(m) => {
                    &&& exists|j: int| 0 <= j < i && popups@[j].1 && #[trigger] popups@[j].0.0 == m
                    &&& forall|j: int| 0 <= j < i && (#[trigger] popups@[j]).1 ==> popups@[j].0.0 <= m
                },
            },
        decreases popups@.len() - i,
    {
        let (id, grabbed) = popups[i];
        if grabbed {
            match newest {
                None => {
                    newest = Some(id.0);
                },
                Some(m) => {
                    if id.0 > m {
                        newest = Some(id.0);
                    }
                },
            }
        }
        proof {
            assert(popups@[i as int] == (id, grabbed));
        }
        i = i + 1;
    }
    match newest {
        None => false,
        Some(m) => {
            if m == parent.0 {
                proof {
                    let j = choose|j: int| 0 <= j < popups@.len() && popups@[j].1 && #[trigger] popups@[j].0.0 == m;
                    assert(popups@[j].0 == parent);
                }
                true
            } else {
                false
            }
        },
    }
}

/// `subtree` without the popups in `dismissed`, in order.
pub open spec fn live_part(subtree: Seq<PopupId>, dismissed: Seq<PopupId>) -> Seq<PopupId>
    decreases subtree.len(),
{
    if subtree.len() == 0 {
        Seq::empty()
    } else {
        let rest = live_part(subtree.drop_last(), dismissed);
        if dismissed.contains(subtree.last()) {
            rest
        } else {
            rest.push(subtree.last())
        }
    }
}

/// The popups of `subtree` that are in `dismissed`, in order.
pub open spec fn dismissed_part(subtree: Seq<PopupId>, dismissed: Seq<PopupId>) -> Seq<PopupId>
    decreases subtree.len(),
{
    if subtree.len() == 0 {
        Seq::empty()
    } else {
        let rest = dismissed_part(subtree.drop_last(), dismissed);
        if dismissed.contains(subtree.last()) {
            rest.push(subtree.last())
        } else {
            rest
        }
    }
}

/// What destroying a popup does to each member of its subtree.
pub struct DestroyPlan {
    /// Live popups to destroy now, children ahead of parents.
    pub destroy: Vec<PopupId>,
    /// Dismissed popups the walk leaves where they are.
    pub held: Vec<PopupId>,
}

/// Splits `id`'s subtree into what destroying `id` takes with it and what it must leave alone.
///
/// A popup in `dismissed` is inside the grace window its `Done` opened: the app can still be
/// presenting to a surface it has not yet learned is gone, so an ancestor being destroyed must
/// not cut that short. It is left to [`release_dismissed`], which drops it a batch later, by
/// which point the app has had its iteration to stop drawing.
pub fn plan_destroy_tree(links: Vec<PopupLink>, dismissed: &[PopupId], id: PopupId) -> (plan:
    DestroyPlan)
    ensures
        plan.destroy@ == live_part(subtree_order(links@, id), dismissed@),
        plan.held@ == dismissed_part(subtree_order(links@, id), dismissed@),
        forall|p: PopupId|
            subtree_order(links@, id).contains(p) ==> (#[trigger] plan.held@.contains(p)
                <==> dismissed@.contains(p)),
        forall|p: PopupId|
            subtree_order(links@, id).contains(p) ==> (#[trigger] plan.destroy@.contains(p)
                <==> !dismissed@.contains(p)),
        forall|p: PopupId|
            #[trigger] plan.held@.contains(p) ==> subtree_order(links@, id).contains(p)
                && dismissed@.contains(p),
        forall|p: PopupId|
            #[trigger] plan.destroy@.contains(p) ==> subtree_order(links@, id).contains(p)
                && !dismissed@.contains(p),
{
    let mut plan = DestroyPlan { destroy: Vec::new(), held: Vec::new() };
    let order = subtree_leaf_first(links, id);
    let mut i: usize = 0;
    while i < order.len()
        invariant
            i <= order@.len(),
            plan.destroy@ == live_part(order@.take(i as int), dismissed@),
            plan.held@ == dismissed_part(order@.take(i as int), dismissed@),
        decreases order@.len() - i,
    {
        let popup = order[i];
        proof {
            assert(order@.take(i + 1).drop_last() =~= order@.take(i as int));
            assert(order@.take(i + 1).last() == popup);
        }
        if contains_id(dismissed, popup) {
            plan.held.push(popup);
        } else {
            plan.destroy.push(popup);
        }
        i = i + 1;
    }
    proof {
        assert(order@.take(order@.len() as int) =~= order@);
        lemma_destroy_split(order@, dismissed@);
    }
    plan
}


/// Splitting a subtree: a popup of it is held exactly when it is among the
/// dismissed popups, wherever it stands there, and destroyed exactly when it
/// is not; neither list holds anything from outside the subtree, nor a
/// dismissed popup among those destroyed.
pub proof fn lemma_destroy_split(subtree: Seq<PopupId>, dismissed: Seq<PopupId>)
    ensures
        forall|p: PopupId|
            subtree.contains(p) ==> (#[trigger] dismissed_part(subtree, dismissed).contains(p)
                <==> dismissed.contains(p)),
        forall|p: PopupId|
            subtree.contains(p) ==> (#[trigger] live_part(subtree, dismissed).contains(p)
                <==> !dismissed.contains(p)),
        forall|p: PopupId|
            #[trigger] dismissed_part(subtree, dismissed).contains(p) ==> subtree.contains(p)
                && dismissed.contains(p),
        forall|p: PopupId|
            #[trigger] live_part(subtree, dismissed).contains(p) ==> subtree.contains(p)
                && !dismissed.contains(p),
    decreases subtree.len(),
{
    if subtree.len() > 0 {
        let init = subtree.drop_last();
        let last = subtree.last();
        lemma_destroy_split(init, dismissed);
        assert(subtree =~= init.push(last));
        let held_init = dismissed_part(init, dismissed);
        let live_init = live_part(init, dismissed);
        assert forall|p: PopupId| #[trigger] subtree.contains(p) implies (dismissed_part(
            subtree,
            dismissed,
        ).contains(p) <==> dismissed.contains(p)) && (live_part(subtree, dismissed).contains(p)
            <==> !dismissed.contains(p)) by {
            let k = choose|k: int| 0 <= k < subtree.len() && subtree[k] == p;
            if k < init.len() {
                assert(init[k] == p);
                assert(init.contains(p));
            }
            if dismissed.contains(last) {
                assert(dismissed_part(subtree, dismissed) == held_init.push(last));
                assert(held_init.push(last)[held_init.len() as int] == last);
            } else {
                assert(live_part(subtree, dismissed) == live_init.push(last));
                assert(live_init.push(last)[live_init.len() as int] == last);
            }
            if held_init.contains(p) {
                let j = choose|j: int| 0 <= j < held_init.len() && held_init[j] == p;
                if dismissed.contains(last) {
                    assert(held_init.push(last)[j] == p);
                }
            }
            if live_init.contains(p) {
                let j = choose|j: int| 0 <= j < live_init.len() && live_init[j] == p;
                if !dismissed.contains(last) {
                    assert(live_init.push(last)[j] == p);
                }
            }
            if dismissed.contains(last) && dismissed_part(subtree, dismissed).contains(p) && p != last {
                let j = choose|j: int|
                    0 <= j < held_init.push(last).len() && held_init.push(last)[j] == p;
                assert(held_init[j] == p);
            }
            if !dismissed.contains(last) && live_part(subtree, dismissed).contains(p) && p != last {
                let j = choose|j: int|
                    0 <= j < live_init.push(last).len() && live_init.push(last)[j] == p;
                assert(live_init[j] == p);
            }
        }
        assert forall|p: PopupId| #[trigger]
            dismissed_part(subtree, dismissed).contains(p) implies subtree.contains(p)
            && dismissed.contains(p) by {
            let out = dismissed_part(subtree, dismissed);
            let j = choose|j: int| 0 <= j < out.len() && out[j] == p;
            if dismissed.contains(last) && j == held_init.len() {
                assert(subtree[subtree.len() - 1] == p);
            } else {
                assert(held_init[j] == p);
                assert(held_init.contains(p));
                let k = choose|k: int| 0 <= k < init.len() && init[k] == p;
                assert(subtree[k] == p);
            }
        }
        assert forall|p: PopupId| #[trigger]
            live_part(subtree, dismissed).contains(p) implies subtree.contains(p)
            && !dismissed.contains(p) by {
            let out = live_part(subtree, dismissed);
            let j = choose|j: int| 0 <= j < out.len() && out[j] == p;
            if !dismissed.contains(last) && j == live_init.len() {
                assert(subtree[subtree.len() - 1] == p);
            } else {
                assert(live_init[j] == p);
                assert(live_init.contains(p));
                let k = choose|k: int| 0 <= k < init.len() && init[k] == p;
                assert(subtree[k] == p);
            }
        }
    }
}

} // verus!
