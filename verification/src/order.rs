//! The order in which the entries of a mapping are emitted: ascending by
//! id, entries with the same id in the order in which they were loaded.

use vstd::prelude::*;
use crate::mapping::{entries_view, MappingEntry, MappingEntryView};

verus! {

/// Whether the ids of `entries` never decrease from one entry to the next.
pub open spec fn is_ordered(entries: Seq<MappingEntryView>) -> bool {
    forall|i: int, j: int| 0 <= i <= j < entries.len() ==> entries[i].id <= entries[j].id
}

/// The entries with the given id, in the order in which `entries` holds
/// them.
pub open spec fn with_id(entries: Seq<MappingEntryView>, id: u32) -> Seq<MappingEntryView> {
    entries.filter(|entry: MappingEntryView| entry.id == id)
}

/// The place of a new entry with the given id among `entries`: behind the
/// last entry whose id is not greater.
pub open spec fn slot(entries: Seq<MappingEntryView>, id: u32) -> int
    decreases entries.len(),
{
    if entries.len() == 0 || entries.last().id <= id {
        entries.len() as int
    } else {
        slot(entries.drop_last(), id)
    }
}

/// The entries in ascending order of their ids. Each entry in turn is put
/// behind those placed before it whose id is not greater, so entries with
/// the same id keep their order.
pub open spec fn ordered_by_id(entries: Seq<MappingEntryView>) -> Seq<MappingEntryView>
    decreases entries.len(),
{
    if entries.len() == 0 {
        entries
    } else {
        let placed = ordered_by_id(entries.drop_last());
        placed.insert(slot(placed, entries.last().id), entries.last())
    }
}

/// The slot lies behind every entry with a smaller or equal id and before
/// every entry with a greater id, where the entries are in order.
pub proof fn lemma_slot_divides(entries: Seq<MappingEntryView>, id: u32)
    requires
        is_ordered(entries),
    ensures
        0 <= slot(entries, id) <= entries.len(),
        forall|i: int| 0 <= i < slot(entries, id) ==> entries[i].id <= id,
        forall|i: int| slot(entries, id) <= i < entries.len() ==> entries[i].id > id,
    decreases entries.len(),
{
    if entries.len() == 0 || entries.last().id <= id {
    } else {
        let shorter = entries.drop_last();
        assert(is_ordered(shorter)) by {
            assert forall|i: int, j: int| 0 <= i <= j < shorter.len() implies shorter[i].id
                <= shorter[j].id by {
                assert(shorter[i] == entries[i] && shorter[j] == entries[j]);
            }
        }
        lemma_slot_divides(shorter, id);
        assert forall|i: int| 0 <= i < slot(entries, id) implies entries[i].id <= id by {
            assert(shorter[i] == entries[i]);
        }
        assert forall|i: int| slot(entries, id) <= i < entries.len() implies entries[i].id
            > id by {
            if i < shorter.len() {
                assert(shorter[i] == entries[i]);
            }
        }
    }
}

/// An entry put into its slot leaves the entries in order.
pub proof fn lemma_insert_keeps_order(entries: Seq<MappingEntryView>, entry: MappingEntryView)
    requires
        is_ordered(entries),
    ensures
        is_ordered(entries.insert(slot(entries, entry.id), entry)),
{
    lemma_slot_divides(entries, entry.id);
    let at = slot(entries, entry.id);
    let grown = entries.insert(at, entry);
    assert forall|i: int, j: int| 0 <= i <= j < grown.len() implies grown[i].id
        <= grown[j].id by {
        if i < at {
            assert(grown[i] == entries[i]);
        } else if i > at {
            assert(grown[i] == entries[i - 1]);
        }
        if j < at {
            assert(grown[j] == entries[j]);
        } else if j > at {
            assert(grown[j] == entries[j - 1]);
        }
    }
}

/// Whatever the order of the entries that come in, those that come out are
/// in ascending order of their ids.
pub proof fn lemma_ordered_by_id_is_ordered(entries: Seq<MappingEntryView>)
    ensures
        is_ordered(ordered_by_id(entries)),
    decreases entries.len(),
{
    if entries.len() > 0 {
        lemma_ordered_by_id_is_ordered(entries.drop_last());
        lemma_insert_keeps_order(ordered_by_id(entries.drop_last()), entries.last());
    }
}

/// The entries that come out are those that came in, each as often as it
/// came in.
pub proof fn lemma_ordered_by_id_permutes(entries: Seq<MappingEntryView>)
    ensures
        ordered_by_id(entries).to_multiset() == entries.to_multiset(),
        ordered_by_id(entries).len() == entries.len(),
    decreases entries.len(),
{
    broadcast use vstd::seq_lib::group_to_multiset_ensures;

    if entries.len() > 0 {
        let shorter = entries.drop_last();
        let placed = ordered_by_id(shorter);
        lemma_ordered_by_id_permutes(shorter);
        lemma_ordered_by_id_is_ordered(shorter);
        lemma_slot_divides(placed, entries.last().id);
        assert(entries == shorter.push(entries.last()));
    }
}

/// Entries with the same id come out in the order in which they came in.
pub proof fn lemma_ordered_by_id_is_stable(entries: Seq<MappingEntryView>, id: u32)
    ensures
        with_id(ordered_by_id(entries), id) == with_id(entries, id),
    decreases entries.len(),
{
    if entries.len() > 0 {
        let shorter = entries.drop_last();
        let last = entries.last();
        let placed = ordered_by_id(shorter);
        let at = slot(placed, last.id);
        let same = |entry: MappingEntryView| entry.id == id;
        lemma_ordered_by_id_is_stable(shorter, id);
        lemma_ordered_by_id_is_ordered(shorter);
        lemma_slot_divides(placed, last.id);
        let front = placed.take(at);
        let back = placed.skip(at);
        assert(placed == front + back);
        assert(placed.insert(at, last) == front + seq![last] + back);
        assert(entries == shorter + seq![last]);
        Seq::filter_distributes_over_add(front, back, same);
        Seq::filter_distributes_over_add(front + seq![last], back, same);
        Seq::filter_distributes_over_add(front, seq![last], same);
        Seq::filter_distributes_over_add(shorter, seq![last], same);
        if last.id == id {
            assert forall|i: int| 0 <= i < back.len() implies !same(back[i]) by {
                assert(back[i] == placed[at + i]);
            }
            back.lemma_all_neg_filter_empty(same);
            assert(back.filter(same) == Seq::<MappingEntryView>::empty());
        } else {
            reveal(Seq::filter);
            assert(seq![last].drop_last() =~= Seq::<MappingEntryView>::empty());
            assert(seq![last].filter(same) =~= Seq::<MappingEntryView>::empty());
        }
    }
}

/// Puts the entries of a mapping into the order in which they are emitted.
pub fn order_by_id(entries: Vec<MappingEntry>) -> (ordered: Vec<MappingEntry>)
    ensures
        entries_view(ordered@) == ordered_by_id(entries_view(entries@)),
        is_ordered(entries_view(ordered@)),
        entries_view(ordered@).to_multiset() == entries_view(entries@).to_multiset(),
        forall|id: u32|
            #[trigger] with_id(entries_view(ordered@), id) == with_id(entries_view(entries@), id),
{
    let ghost all = entries@;
    let mut ordered: Vec<MappingEntry> = Vec::new();
    for entry in it: entries.into_iter()
        invariant
            it.seq() == all,
            entries_view(ordered@) == ordered_by_id(entries_view(all.take(it.index() as int))),
    {
        let ghost placed = entries_view(ordered@);
        let ghost taken = entries_view(all.take(it.index() as int));
        let mut at: usize = ordered.len();
        assert(placed.take(at as int) == placed);
        while at > 0 && ordered[at - 1].id > entry.id
            invariant
                at <= ordered.len(),
                placed == entries_view(ordered@),
                slot(placed, entry.id) == slot(placed.take(at as int), entry.id),
            decreases at,
        {
            assert(placed.take(at as int).drop_last() == placed.take(at - 1));
            at -= 1;
        }
        assert(slot(placed, entry.id) == at) by {
            if at > 0 {
                assert(placed.take(at as int).last() == ordered@[at - 1]@);
            }
        }
        ordered.insert(at, entry);
        proof {
            let longer = entries_view(all.take(it.index() + 1));
            assert(entries_view(ordered@) =~= placed.insert(at as int, entry@));
            assert(longer.drop_last() =~= taken);
            assert(longer.last() == entry@);
        }
    }
    proof {
        assert(all.take(all.len() as int) == all);
        let given = entries_view(all);
        lemma_ordered_by_id_is_ordered(given);
        lemma_ordered_by_id_permutes(given);
        assert forall|id: u32| #[trigger]
            with_id(ordered_by_id(given), id) == with_id(given, id) by {
            lemma_ordered_by_id_is_stable(given, id);
        }
    }
    ordered
}

} // verus!
