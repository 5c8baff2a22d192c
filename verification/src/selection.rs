//! The filtered view of a list and the way from an index in that view to a
//! place in the full list.

use crate::entry::{entry_views, Entry, EntryView};
use crate::filter::{Filter, FilterView};
use vstd::prelude::*;

verus! {

/// The filtered view: the entries that `filter` lets through, in the order
/// in which they stand in `entries`.
pub open spec fn filtered(entries: Seq<EntryView>, filter: FilterView) -> Seq<EntryView> {
    entries.filter(|entry: EntryView| filter.fits(entry))
}

/// The absolute positions of the entries that `filter` lets through, in
/// rising order: element `n` is where entry `n` of the filtered view stands
/// in `entries`.
pub open spec fn positions(entries: Seq<EntryView>, filter: FilterView) -> Seq<int>
    decreases entries.len(),
{
    if entries.len() == 0 {
        Seq::empty()
    } else {
        let before = positions(entries.drop_last(), filter);
        if filter.fits(entries.last()) {
            before.push(entries.len() - 1)
        } else {
            before
        }
    }
}

/// An index that lies beyond the filtered view. The operation that met it
/// has changed nothing.
#[derive(Clone, Copy, Debug, PartialEq, Eq, Structural)]
pub struct IndexOutOfRange {
    /// The index that was asked for.
    pub index: usize,
    /// The number of entries that the filtered view held.
    pub shown: usize,
}

/// Nothing is shown of an empty list.
pub proof fn lemma_filtered_empty(filter: FilterView)
    ensures
        filtered(Seq::empty(), filter) == Seq::<EntryView>::empty(),
{
    reveal(Seq::filter);
}

/// The filtered view grows with the list: the last entry is taken or passed
/// over, and what stands before it is filtered in the same way.
pub proof fn lemma_filtered_last(entries: Seq<EntryView>, filter: FilterView)
    requires
        entries.len() > 0,
    ensures
        filtered(entries, filter) == if filter.fits(entries.last()) {
            filtered(entries.drop_last(), filter).push(entries.last())
        } else {
            filtered(entries.drop_last(), filter)
        },
{
    reveal(Seq::filter);
}

/// The filtered view of the first `i + 1` entries, from that of the first
/// `i`.
pub proof fn lemma_filtered_take(entries: Seq<EntryView>, filter: FilterView, i: int)
    requires
        0 <= i < entries.len(),
    ensures
        filtered(entries.take(i + 1), filter) == if filter.fits(entries[i]) {
            filtered(entries.take(i), filter).push(entries[i])
        } else {
            filtered(entries.take(i), filter)
        },
{
    assert(entries.take(i + 1).drop_last() =~= entries.take(i));
    lemma_filtered_last(entries.take(i + 1), filter);
}

/// What the filtered view of the first `k` entries shows, the filtered view
/// of the whole list shows at the same place.
pub proof fn lemma_shown_stays(entries: Seq<EntryView>, filter: FilterView, k: int, n: int)
    requires
        0 <= k <= entries.len(),
        0 <= n < filtered(entries.take(k), filter).len(),
    ensures
        n < filtered(entries, filter).len(),
        filtered(entries, filter)[n] == filtered(entries.take(k), filter)[n],
    decreases entries.len() - k,
{
    if k < entries.len() {
        lemma_filtered_take(entries, filter, k);
        lemma_shown_stays(entries, filter, k + 1, n);
    } else {
        assert(entries.take(k) =~= entries);
    }
}

/// The positions among the first `i + 1` entries, from those among the
/// first `i`.
pub proof fn lemma_positions_take(entries: Seq<EntryView>, filter: FilterView, i: int)
    requires
        0 <= i < entries.len(),
    ensures
        positions(entries.take(i + 1), filter) == if filter.fits(entries[i]) {
            positions(entries.take(i), filter).push(i)
        } else {
            positions(entries.take(i), filter)
        },
{
    assert(entries.take(i + 1).drop_last() =~= entries.take(i));
}

/// `positions` and `filtered` walk the list together: they have the same
/// length, each position lies in the list and holds the entry that the
/// filtered view shows there, and the positions rise.
pub proof fn lemma_positions(entries: Seq<EntryView>, filter: FilterView)
    ensures
        positions(entries, filter).len() == filtered(entries, filter).len(),
        forall|n: int|
            0 <= n < positions(entries, filter).len() ==> {
                let at = #[trigger] positions(entries, filter)[n];
                &&& 0 <= at < entries.len()
                &&& filter.fits(entries[at])
                &&& filtered(entries, filter)[n] == entries[at]
            },
        forall|m: int, n: int|
            0 <= m < n < positions(entries, filter).len() ==> positions(entries, filter)[m]
                < positions(entries, filter)[n],
    decreases entries.len(),
{
    if entries.len() == 0 {
        lemma_filtered_empty(filter);
    } else {
        lemma_positions(entries.drop_last(), filter);
        lemma_filtered_last(entries, filter);
    }
}

/// The positions among the first `k` entries are the first of the positions
/// in the whole list.
pub proof fn lemma_positions_prefix(entries: Seq<EntryView>, filter: FilterView, k: int)
    requires
        0 <= k <= entries.len(),
    ensures
        positions(entries.take(k), filter).len() <= positions(entries, filter).len(),
        positions(entries.take(k), filter) == positions(entries, filter).take(
            positions(entries.take(k), filter).len() as int,
        ),
    decreases entries.len(),
{
    if k == entries.len() {
        assert(entries.take(k) =~= entries);
        assert(positions(entries, filter) =~= positions(entries, filter).take(
            positions(entries, filter).len() as int,
        ));
    } else {
        assert(entries.drop_last().take(k) =~= entries.take(k));
        lemma_positions_prefix(entries.drop_last(), filter, k);
        let head = positions(entries.take(k), filter);
        assert(head =~= positions(entries, filter).take(head.len() as int));
    }
}

/// The filter `All` shows the whole list: every entry stands in the
/// filtered view at its own place.
pub proof fn lemma_all_shows_everything(entries: Seq<EntryView>)
    ensures
        filtered(entries, FilterView::All) == entries,
        positions(entries, FilterView::All) == Seq::new(entries.len(), |i: int| i),
    decreases entries.len(),
{
    if entries.len() == 0 {
        lemma_filtered_empty(FilterView::All);
        assert(positions(entries, FilterView::All) =~= Seq::new(entries.len(), |i: int| i));
        assert(entries =~= Seq::empty());
    } else {
        lemma_all_shows_everything(entries.drop_last());
        lemma_filtered_last(entries, FilterView::All);
        assert(entries.drop_last().push(entries.last()) =~= entries);
        assert(positions(entries, FilterView::All) =~= Seq::new(entries.len(), |i: int| i));
    }
}

/// Two lists on whose entries the filter gives the same verdicts, place by
/// place, show the same positions.
pub proof fn lemma_same_verdicts(a: Seq<EntryView>, b: Seq<EntryView>, filter: FilterView)
    requires
        a.len() == b.len(),
        forall|i: int| 0 <= i < a.len() ==> filter.fits(#[trigger] a[i]) == filter.fits(b[i]),
    ensures
        positions(a, filter) == positions(b, filter),
    decreases a.len(),
{
    if a.len() > 0 {
        assert forall|i: int| 0 <= i < a.drop_last().len() implies filter.fits(
            #[trigger] a.drop_last()[i],
        ) == filter.fits(b.drop_last()[i]) by {
            assert(a.drop_last()[i] == a[i]);
        }
        lemma_same_verdicts(a.drop_last(), b.drop_last(), filter);
        assert(filter.fits(a[a.len() - 1]) == filter.fits(b[a.len() - 1]));
    }
}

/// A filter that lets none of the entries through shows nothing.
pub proof fn lemma_none_fit(entries: Seq<EntryView>, filter: FilterView)
    requires
        forall|i: int| 0 <= i < entries.len() ==> !filter.fits(#[trigger] entries[i]),
    ensures
        filtered(entries, filter).len() == 0,
    decreases entries.len(),
{
    if entries.len() == 0 {
        lemma_filtered_empty(filter);
    } else {
        assert forall|i: int| 0 <= i < entries.drop_last().len() implies !filter.fits(
            #[trigger] entries.drop_last()[i],
        ) by {
            assert(entries.drop_last()[i] == entries[i]);
        }
        lemma_none_fit(entries.drop_last(), filter);
        lemma_filtered_last(entries, filter);
        assert(!filter.fits(entries[entries.len() - 1]));
    }
}

/// The filtered view of `entries` under `filter`: copies of the entries that
/// the filter lets through, in their order.
pub fn filtered_view(filter: &Filter, entries: &Vec<Entry>) -> (shown: Vec<Entry>)
    ensures
        entry_views(shown@) == filtered(entry_views(entries@), filter@),
{
    let ghost all = entry_views(entries@);
    let matcher = filter.matcher();
    let mut shown: Vec<Entry> = Vec::new();
    let mut i: usize = 0;
    proof {
        assert(all.take(0) =~= Seq::empty());
        lemma_filtered_empty(filter@);
        assert(entry_views(shown@) =~= Seq::empty());
    }
    while i < entries.len()
        invariant
            all == entry_views(entries@),
            matcher.filter() == filter@,
            0 <= i <= entries.len(),
            entry_views(shown@) == filtered(all.take(i as int), filter@),
        decreases entries.len() - i,
    {
        proof {
            lemma_filtered_take(all, filter@, i as int);
        }
        if matcher.fit(&entries[i]) {
            let ghost before = shown@;
            shown.push(entries[i].clone());
            assert(entry_views(shown@) =~= entry_views(before).push(all[i as int]));
        }
        i = i + 1;
    }
    proof {
        assert(all.take(i as int) =~= all);
    }
    shown
}

/// Finds the place in `entries` of entry `idx` of the filtered view: the
/// list is scanned from the front, and the entry that the filter lets
/// through after `idx` others is the one.
pub fn resolve(filter: &Filter, entries: &Vec<Entry>, idx: usize) -> (r: Result<
    usize,
    IndexOutOfRange,
>)
    ensures
        match r {
            Ok(at) => {
                &&& idx < filtered(entry_views(entries@), filter@).len()
                &&& at == positions(entry_views(entries@), filter@)[idx as int]
                &&& at < entries.len()
            },
            Err(fault) => {
                &&& idx >= filtered(entry_views(entries@), filter@).len()
                &&& fault.index == idx
                &&& fault.shown == filtered(entry_views(entries@), filter@).len()
            },
        },
{
    let ghost all = entry_views(entries@);
    let matcher = filter.matcher();
    let mut seen: usize = 0;
    let mut i: usize = 0;
    proof {
        assert(all.take(0) =~= Seq::empty());
    }
    while i < entries.len()
        invariant
            all == entry_views(entries@),
            matcher.filter() == filter@,
            0 <= i <= entries.len(),
            seen == positions(all.take(i as int), filter@).len(),
            seen <= idx,
            seen <= i,
        decreases entries.len() - i,
    {
        proof {
            lemma_positions_take(all, filter@, i as int);
        }
        if matcher.fit(&entries[i]) {
            if seen == idx {
                proof {
                    let head = positions(all.take(i + 1), filter@);
                    lemma_positions_prefix(all, filter@, i + 1);
                    lemma_positions(all, filter@);
                    assert(head[idx as int] == i);
                    assert(positions(all, filter@).take(head.len() as int)[idx as int] == i);
                }
                return Ok(i);
            }
            seen = seen + 1;
        }
        i = i + 1;
    }
    proof {
        assert(all.take(i as int) =~= all);
        lemma_positions(all, filter@);
    }
    Err(IndexOutOfRange { index: idx, shown: seen })
}

} // verus!
