//! What holds of every generated enumeration.

use vstd::prelude::*;
use vstd::relations::{sorted_by, total_ordering};
use vstd::seq_lib::lemma_sorted_unique;
use crate::error::LabelErrorView;
use crate::generated::{
    derived_all, first_with_id, lemma_first_with_id, DerivedVariantView, GeneratedEnumView,
    LabelView,
};
use crate::mapping::{entries_of, toml_table, MappingEntryView};
use crate::order::{
    lemma_ordered_by_id_is_ordered, lemma_ordered_by_id_is_stable, lemma_ordered_by_id_permutes,
    ordered_by_id, with_id,
};
use crate::text::decimal;
use crate::{generated_for, generation, TargetView};

verus! {

/// The ids of a sequence of entries, in the same order.
pub open spec fn ids_of(entries: Seq<MappingEntryView>) -> Seq<u32> {
    entries.map_values(|entry: MappingEntryView| entry.id)
}

/// A run on a file that was read and that holds a mapping ends with what is
/// generated from the entries of that mapping, so what holds of everything
/// that is generated from entries holds of every such run.
pub proof fn lemma_generation_from_mapping(
    path: Seq<char>,
    content: Seq<char>,
    target: TargetView,
)
    requires
        toml_table(content) is Ok,
    ensures
        generation(path, Ok(content), target) == generated_for(
            target,
            entries_of(toml_table(content)->Ok_0),
        ),
        entries_of(toml_table(content)->Ok_0).len() == toml_table(content)->Ok_0.len(),
{
}

/// The enumeration that is generated from a mapping has as many variants of
/// the mapping as the mapping has entries: that count is its `LABEL_NUM`.
pub proof fn lemma_label_num_counts_entries(target: TargetView, entries: Seq<MappingEntryView>)
    requires
        target is Enum,
    ensures
        generated_for(target, entries) is Ok,
        generated_for(target, entries)->Ok_0.label_num() == entries.len(),
{
    lemma_ordered_by_id_permutes(entries);
}

/// Round trip for known ids: the label of an id that a variant has is a
/// variant of the mapping, it converts back to that id, and its text is the
/// key of the first variant with that id.
pub proof fn lemma_known_id_round_trip(enumeration: GeneratedEnumView, id: u32)
    requires
        enumeration.knows(id),
    ensures
        enumeration.from_label_id(id) is Variant,
        enumeration.from_label_id(id).to_label_id() == id,
        0 <= first_with_id(enumeration.variants, id) < enumeration.variants.len(),
        enumeration.from_label_id(id).to_label_str() == enumeration.variants[first_with_id(
            enumeration.variants,
            id,
        )].raw_name,
{
    lemma_first_with_id(enumeration.variants, id);
}

/// The first element of a sequence that meets a condition is the first
/// element of what a filter by that condition keeps.
proof fn lemma_first_kept<A>(s: Seq<A>, keep: spec_fn(A) -> bool, i: int)
    requires
        0 <= i < s.len(),
        keep(s[i]),
        forall|j: int| 0 <= j < i ==> !keep(s[j]),
    ensures
        s.filter(keep).len() > 0,
        s.filter(keep).first() == s[i],
    decreases s.len(),
{
    reveal(Seq::filter);
    let shorter = s.drop_last();
    if i == s.len() - 1 {
        assert(shorter.all(|x: A| !keep(x))) by {
            assert forall|j: int| 0 <= j < shorter.len() implies !keep(#[trigger] shorter[j]) by {
                assert(shorter[j] == s[j]);
            }
        }
        shorter.lemma_all_neg_filter_empty(keep);
    } else {
        assert(shorter[i] == s[i]);
        assert forall|j: int| 0 <= j < i implies !keep(shorter[j]) by {
            assert(shorter[j] == s[j]);
        }
        lemma_first_kept(shorter, keep, i);
    }
}

/// Round trip from the mapping: the label of the id of an entry converts
/// back to that id, and its text is the key that the mapping gives the id.
/// Where several keys share an id, the label has the key that was loaded
/// first.
pub proof fn lemma_label_of_entry(target: TargetView, entries: Seq<MappingEntryView>, at: int)
    requires
        target is Enum,
        0 <= at < entries.len(),
        forall|j: int| 0 <= j < at ==> entries[j].id != entries[at].id,
    ensures
        generated_for(target, entries) is Ok,
        generated_for(target, entries)->Ok_0.from_label_id(entries[at].id) is Variant,
        generated_for(target, entries)->Ok_0.from_label_id(entries[at].id).to_label_id()
            == entries[at].id,
        generated_for(target, entries)->Ok_0.from_label_id(entries[at].id).to_label_str()
            == entries[at].raw_name,
{
    let id = entries[at].id;
    let placed = ordered_by_id(entries);
    let variants = generated_for(target, entries)->Ok_0.variants;
    let same = |entry: MappingEntryView| entry.id == id;
    lemma_ordered_by_id_is_stable(entries, id);
    lemma_first_kept(entries, same, at);
    assert(with_id(placed, id).first() == entries[at]);
    // The first entry with the id among those placed is the first variant with it.
    let first = first_with_id(variants, id);
    lemma_first_with_id(variants, id);
    assert(first < variants.len()) by {
        if first >= variants.len() {
            assert(placed.all(|x: MappingEntryView| !same(x))) by {
                assert forall|j: int| 0 <= j < placed.len() implies !same(
                    #[trigger] placed[j],
                ) by {
                    assert(variants[j].id == placed[j].id);
                }
            }
            placed.lemma_all_neg_filter_empty(same);
        }
    }
    assert(variants[first].id == placed[first].id);
    assert forall|j: int| 0 <= j < first implies !same(placed[j]) by {
        assert(variants[j].id == placed[j].id);
    }
    lemma_first_kept(placed, same, first);
}

/// The ids that a generated enumeration knows are those of the mapping.
pub proof fn lemma_known_ids_are_those_of_the_mapping(
    target: TargetView,
    entries: Seq<MappingEntryView>,
    id: u32,
)
    requires
        target is Enum,
    ensures
        generated_for(target, entries) is Ok,
        generated_for(target, entries)->Ok_0.knows(id) <==> exists|i: int|
            0 <= i < entries.len() && entries[i].id == id,
{
    broadcast use vstd::seq_lib::group_to_multiset_ensures;

    let placed = ordered_by_id(entries);
    let variants = generated_for(target, entries)->Ok_0.variants;
    lemma_ordered_by_id_permutes(entries);
    if exists|i: int| 0 <= i < entries.len() && entries[i].id == id {
        let i = choose|i: int| 0 <= i < entries.len() && entries[i].id == id;
        assert(entries.to_multiset().contains(entries[i]));
        assert(placed.contains(entries[i]));
        let j = choose|j: int| 0 <= j < placed.len() && placed[j] == entries[i];
        assert(variants[j].id == id);
    }
    if generated_for(target, entries)->Ok_0.knows(id) {
        let j = choose|j: int| 0 <= j < variants.len() && variants[j].id == id;
        assert(placed[j].id == id);
        assert(placed.to_multiset().contains(placed[j]));
        assert(entries.contains(placed[j]));
        let i = choose|i: int| 0 <= i < entries.len() && entries[i] == placed[j];
        assert(entries[i].id == id);
    }
}

/// Fallback for unknown ids: the label of an id that no variant has is the
/// fallback variant with that id. Its text is `unknown` and the id in
/// decimal notation, and it converts back to the id.
pub proof fn lemma_unknown_id_falls_back(enumeration: GeneratedEnumView, id: u32)
    requires
        !enumeration.knows(id),
    ensures
        enumeration.from_label_id(id) == LabelView::Unknown(id),
        enumeration.from_label_id(id).to_label_str() == "unknown"@ + decimal(id as nat),
        enumeration.from_label_id(id).to_label_id() == id,
{
    lemma_first_with_id(enumeration.variants, id);
}

/// Every id converts to a label that converts back to it, whether the
/// mapping holds the id or not.
pub proof fn lemma_id_round_trip(enumeration: GeneratedEnumView, id: u32)
    ensures
        enumeration.from_label_id(id).to_label_id() == id,
        enumeration.from_label_id(id) is Variant <==> enumeration.knows(id),
{
    lemma_first_with_id(enumeration.variants, id);
}

/// Generation is repeatable: two runs on the same path, the same outcome of
/// reading the file and the same target end alike.
pub proof fn lemma_generation_is_repeatable(
    path: Seq<char>,
    file: Result<Seq<char>, Seq<char>>,
    target: TargetView,
    first: Result<GeneratedEnumView, LabelErrorView>,
    second: Result<GeneratedEnumView, LabelErrorView>,
)
    requires
        first == generation(path, file, target),
        second == generation(path, file, target),
    ensures
        first == second,
{
}

/// The variants of a generated enumeration are declared in ascending order
/// of their ids, whatever the order in which the entries were loaded.
pub proof fn lemma_variants_ascend(target: TargetView, entries: Seq<MappingEntryView>)
    requires
        target is Enum,
    ensures
        generated_for(target, entries) is Ok,
        forall|i: int, j: int|
            0 <= i <= j < entries.len() ==> generated_for(target, entries)->Ok_0.variants[i].id
                <= generated_for(target, entries)->Ok_0.variants[j].id,
{
    lemma_ordered_by_id_is_ordered(entries);
    lemma_ordered_by_id_permutes(entries);
    let placed = ordered_by_id(entries);
    let variants = generated_for(target, entries)->Ok_0.variants;
    assert forall|i: int, j: int| 0 <= i <= j < entries.len() implies variants[i].id
        <= variants[j].id by {
        assert(variants[i].id == placed[i].id);
        assert(variants[j].id == placed[j].id);
    }
}

/// Two sequences with the same entries, each as often in the one as in the
/// other, have the same ids, each as often in the one as in the other.
proof fn lemma_same_entries_same_ids(first: Seq<MappingEntryView>, second: Seq<MappingEntryView>)
    requires
        first.to_multiset() == second.to_multiset(),
    ensures
        ids_of(first).to_multiset() == ids_of(second).to_multiset(),
    decreases first.len(),
{
    broadcast use vstd::seq_lib::group_to_multiset_ensures;
    broadcast use vstd::multiset::group_multiset_axioms;

    assert(first.len() == second.len()) by {
        assert(first.to_multiset().len() == first.len());
        assert(second.to_multiset().len() == second.len());
    }
    if first.len() == 0 {
        assert(ids_of(first) =~= ids_of(second));
    } else {
        let last = first.last();
        assert(first.to_multiset().contains(last)) by {
            assert(first[first.len() - 1] == last);
        }
        assert(second.to_multiset().contains(last));
        assert(second.contains(last));
        let at = choose|at: int| 0 <= at < second.len() && second[at] == last;
        let shorter = first.drop_last();
        let other = second.remove(at);
        assert(shorter.to_multiset() =~= first.to_multiset().remove(last)) by {
            assert(shorter == first.remove(first.len() - 1));
        }
        assert(other.to_multiset() =~= second.to_multiset().remove(last));
        lemma_same_entries_same_ids(shorter, other);
        assert(ids_of(first) =~= ids_of(shorter).push(last.id));
        assert(ids_of(second) =~= ids_of(other).insert(at, last.id));
    }
}

/// The order of loading does not show in the ids: two mappings with the same
/// entries, loaded in whatever order, give the same sequence of ids.
pub proof fn lemma_ids_ignore_loading_order(
    first: Seq<MappingEntryView>,
    second: Seq<MappingEntryView>,
)
    requires
        first.to_multiset() == second.to_multiset(),
    ensures
        ids_of(ordered_by_id(first)) == ids_of(ordered_by_id(second)),
{
    let no_greater = |a: u32, b: u32| a <= b;
    let ids = ids_of(ordered_by_id(first));
    let others = ids_of(ordered_by_id(second));
    lemma_ordered_by_id_is_ordered(first);
    lemma_ordered_by_id_is_ordered(second);
    lemma_ordered_by_id_permutes(first);
    lemma_ordered_by_id_permutes(second);
    lemma_same_entries_same_ids(ordered_by_id(first), ordered_by_id(second));
    assert(total_ordering(no_greater));
    assert(sorted_by(ids, no_greater)) by {
        assert forall|i: int, j: int| 0 <= i < j < ids.len() implies #[trigger] no_greater(
            ids[i],
            ids[j],
        ) by {
            assert(ids[i] == ordered_by_id(first)[i].id);
            assert(ids[j] == ordered_by_id(first)[j].id);
        }
    }
    assert(sorted_by(others, no_greater)) by {
        assert forall|i: int, j: int| 0 <= i < j < others.len() implies #[trigger] no_greater(
            others[i],
            others[j],
        ) by {
            assert(others[i] == ordered_by_id(second)[i].id);
            assert(others[j] == ordered_by_id(second)[j].id);
        }
    }
    lemma_sorted_unique(ids, others, no_greater);
}

/// An empty mapping gives an enumeration without a variant of the mapping:
/// its `LABEL_NUM` is zero and every id has the fallback variant.
pub proof fn lemma_empty_mapping(target: TargetView, id: u32)
    requires
        target is Enum,
    ensures
        generated_for(target, Seq::empty()) is Ok,
        generated_for(target, Seq::empty())->Ok_0.label_num() == 0,
        generated_for(target, Seq::empty())->Ok_0.variants == Seq::<DerivedVariantView>::empty(),
        generated_for(target, Seq::empty())->Ok_0.from_label_id(id) == LabelView::Unknown(id),
{
    let none = Seq::<MappingEntryView>::empty();
    assert(ordered_by_id(none) == none);
    assert(derived_all(none) =~= Seq::<DerivedVariantView>::empty());
}

} // verus!
