//! The generated enumeration: its variants, and the conversions between
//! numeric ids, variants and label texts that it is generated with.

use vstd::prelude::*;
use crate::ident::{camel_case, to_camel_case};
use crate::mapping::{entries_view, MappingEntry, MappingEntryView};
use crate::text::{decimal, push_decimal};

verus! {

/// A variant of the generated enumeration, derived from one entry of the
/// mapping.
#[derive(Debug, PartialEq, Eq)]
pub struct DerivedVariant {
    /// The name of the variant, as it is derived from the key. Nothing
    /// makes it a valid identifier: it is one only where the key allows it.
    pub identifier: String,
    /// The numeric id of the entry.
    pub id: u32,
    /// The key of the entry, which is the label text of the variant.
    pub raw_name: String,
}

/// The mathematical value of a [`DerivedVariant`].
pub ghost struct DerivedVariantView {
    pub identifier: Seq<char>,
    pub id: u32,
    pub raw_name: Seq<char>,
}

impl View for DerivedVariant {
    type V = DerivedVariantView;

    open spec fn view(&self) -> DerivedVariantView {
        DerivedVariantView { identifier: self.identifier@, id: self.id, raw_name: self.raw_name@ }
    }
}

/// The mathematical values of a sequence of variants.
pub open spec fn variants_view(variants: Seq<DerivedVariant>) -> Seq<DerivedVariantView> {
    variants.map_values(|variant: DerivedVariant| variant@)
}

/// The variant that an entry gives: its identifier is derived from the key,
/// its id and its label text are those of the entry.
pub open spec fn derived(entry: MappingEntryView) -> DerivedVariantView {
    DerivedVariantView {
        identifier: camel_case(entry.raw_name),
        id: entry.id,
        raw_name: entry.raw_name,
    }
}

/// The variants that a sequence of entries gives, one for each entry and in
/// the same order.
pub open spec fn derived_all(entries: Seq<MappingEntryView>) -> Seq<DerivedVariantView> {
    entries.map_values(|entry: MappingEntryView| derived(entry))
}

/// Derives the variant of one entry.
pub fn derive_variant(entry: MappingEntry) -> (variant: DerivedVariant)
    ensures
        variant@ == derived(entry@),
{
    let identifier = to_camel_case(entry.raw_name.as_str());
    DerivedVariant { identifier, id: entry.id, raw_name: entry.raw_name }
}

/// Derives the variants of a sequence of entries.
pub fn derive_variants(entries: Vec<MappingEntry>) -> (variants: Vec<DerivedVariant>)
    ensures
        variants_view(variants@) == derived_all(entries_view(entries@)),
{
    let ghost all = entries@;
    let mut variants: Vec<DerivedVariant> = Vec::new();
    for entry in it: entries.into_iter()
        invariant
            it.seq() == all,
            variants.len() == it.index(),
            forall|j: int| 0 <= j < variants.len() ==> (#[trigger] variants[j])@ == derived(all[j]@),
    {
        variants.push(derive_variant(entry));
    }
    assert(variants_view(variants@) =~= derived_all(entries_view(all)));
    variants
}

/// A value of the generated enumeration.
#[derive(Debug, PartialEq, Eq)]
pub enum Label<'a> {
    /// One of the variants that were derived from the mapping.
    Variant(&'a DerivedVariant),
    /// The fallback variant, which carries an id that the mapping lacks.
    Unknown(u32),
}

/// The mathematical value of a [`Label`].
pub ghost enum LabelView {
    Variant(DerivedVariantView),
    Unknown(u32),
}

impl<'a> View for Label<'a> {
    type V = LabelView;

    open spec fn view(&self) -> LabelView {
        match self {
            Label::Variant(variant) => LabelView::Variant(variant@),
            Label::Unknown(id) => LabelView::Unknown(*id),
        }
    }
}

impl LabelView {
    /// The numeric id of the label: the id of the entry for a variant of the
    /// mapping, the carried id for the fallback variant.
    pub open spec fn to_label_id(self) -> u32 {
        match self {
            LabelView::Variant(variant) => variant.id,
            LabelView::Unknown(id) => id,
        }
    }

    /// The text of the label: the key of the entry for a variant of the
    /// mapping, `unknown` and the decimal id for the fallback variant.
    pub open spec fn to_label_str(self) -> Seq<char> {
        match self {
            LabelView::Variant(variant) => variant.raw_name,
            LabelView::Unknown(id) => "unknown"@ + decimal(id as nat),
        }
    }
}

impl<'a> Label<'a> {
    /// The numeric id of the label.
    pub fn to_label_id(&self) -> (id: u32)
        ensures
            id == self@.to_label_id(),
    {
        match self {
            Label::Variant(variant) => variant.id,
            Label::Unknown(id) => *id,
        }
    }

    /// The text of the label.
    pub fn to_label_str(&self) -> (text: String)
        ensures
            text@ == self@.to_label_str(),
    {
        match self {
            Label::Variant(variant) => variant.raw_name.clone(),
            Label::Unknown(id) => {
                let mut text = "unknown".to_owned();
                push_decimal(&mut text, *id as u64);
                text
            },
        }
    }
}

/// The position of the first variant with the given id, or the number of
/// variants where none has it.
pub open spec fn first_with_id(variants: Seq<DerivedVariantView>, id: u32) -> int
    decreases variants.len(),
{
    if variants.len() == 0 || variants.first().id == id {
        0
    } else {
        1 + first_with_id(variants.drop_first(), id)
    }
}

/// The generated enumeration: the declaration that it replaces gives its
/// visibility and its name, the mapping gives its variants. Besides them it
/// has the fallback variant `Unknown`, which carries an id.
///
/// Two keys of the mapping may derive the same identifier; that is not
/// detected.
#[derive(Debug, PartialEq, Eq)]
pub struct GeneratedEnum {
    /// The visibility of the declaration, as it is written.
    pub visibility: String,
    /// The name of the enumeration.
    pub name: String,
    /// The variants that were derived from the mapping, in the order in
    /// which they are declared.
    pub variants: Vec<DerivedVariant>,
}

/// The mathematical value of a [`GeneratedEnum`].
pub ghost struct GeneratedEnumView {
    pub visibility: Seq<char>,
    pub name: Seq<char>,
    pub variants: Seq<DerivedVariantView>,
}

impl View for GeneratedEnum {
    type V = GeneratedEnumView;

    open spec fn view(&self) -> GeneratedEnumView {
        GeneratedEnumView {
            visibility: self.visibility@,
            name: self.name@,
            variants: variants_view(self.variants@),
        }
    }
}

impl GeneratedEnumView {
    /// The number of variants that were derived from the mapping.
    pub open spec fn label_num(self) -> nat {
        self.variants.len()
    }

    /// Whether a variant of the mapping has the given id.
    pub open spec fn knows(self, id: u32) -> bool {
        exists|i: int| 0 <= i < self.variants.len() && self.variants[i].id == id
    }

    /// The label of a numeric id: the first variant with that id in the
    /// order of declaration, or the fallback variant with the id where no
    /// variant has it.
    pub open spec fn from_label_id(self, id: u32) -> LabelView {
        let at = first_with_id(self.variants, id);
        if at < self.variants.len() {
            LabelView::Variant(self.variants[at])
        } else {
            LabelView::Unknown(id)
        }
    }
}

/// The first variant with an id has that id, and no variant before it has.
/// Where no variant has the id, the position is the number of variants.
pub proof fn lemma_first_with_id(variants: Seq<DerivedVariantView>, id: u32)
    ensures
        0 <= first_with_id(variants, id) <= variants.len(),
        first_with_id(variants, id) < variants.len() ==> variants[first_with_id(
            variants,
            id,
        )].id == id,
        forall|i: int| 0 <= i < first_with_id(variants, id) ==> variants[i].id != id,
    decreases variants.len(),
{
    if variants.len() == 0 || variants.first().id == id {
    } else {
        let rest = variants.drop_first();
        lemma_first_with_id(rest, id);
        assert forall|i: int| 0 <= i < first_with_id(variants, id) implies variants[i].id
            != id by {
            if i > 0 {
                assert(rest[i - 1] == variants[i]);
            }
        }
        if first_with_id(variants, id) < variants.len() {
            assert(rest[first_with_id(rest, id)] == variants[first_with_id(variants, id)]);
        }
    }
}

impl GeneratedEnum {
    /// The number of variants that were derived from the mapping. The count
    /// has to fit the type of the generated constant.
    pub fn label_num(&self) -> (count: u32)
        requires
            self@.label_num() <= u32::MAX,
        ensures
            count == self@.label_num(),
    {
        self.variants.len() as u32
    }

    /// The label of a numeric id.
    pub fn from_label_id(&self, id: u32) -> (label: Label<'_>)
        ensures
            label@ == self@.from_label_id(id),
            label is Unknown <==> !self@.knows(id),
    {
        let ghost variants = variants_view(self.variants@);
        let mut i: usize = 0;
        while i < self.variants.len()
            invariant
                i <= self.variants.len(),
                variants == variants_view(self.variants@),
                forall|j: int| 0 <= j < i ==> variants[j].id != id,
            decreases self.variants.len() - i,
        {
            if self.variants[i].id == id {
                proof {
                    lemma_first_with_id(variants, id);
                    assert(variants[i as int].id == id);
                }
                return Label::Variant(&self.variants[i]);
            }
            i += 1;
        }
        proof {
            lemma_first_with_id(variants, id);
        }
        Label::Unknown(id)
    }
}

} // verus!
