//! The mapping from names to numeric ids, as it is loaded from the content
//! of a mapping file.

use std::collections::BTreeMap;
use vstd::prelude::*;
use crate::error::{LabelError, LabelErrorView};

verus! {

/// One entry of the mapping file.
#[derive(Debug, PartialEq, Eq)]
pub struct MappingEntry {
    /// The key as it stands in the mapping file.
    pub raw_name: String,
    /// The numeric id that the key is mapped to.
    pub id: u32,
}

/// The mathematical value of a [`MappingEntry`].
pub ghost struct MappingEntryView {
    pub raw_name: Seq<char>,
    pub id: u32,
}

impl View for MappingEntry {
    type V = MappingEntryView;

    open spec fn view(&self) -> MappingEntryView {
        MappingEntryView { raw_name: self.raw_name@, id: self.id }
    }
}

/// The mathematical values of a sequence of entries.
pub open spec fn entries_view(entries: Seq<MappingEntry>) -> Seq<MappingEntryView> {
    entries.map_values(|entry: MappingEntry| entry@)
}

/// What `toml::from_str` makes of `content` when it is asked for a flat
/// table from keys to unsigned 32-bit integers: the pairs of the table in
/// ascending order of their keys, or the text of its error.
pub uninterp spec fn toml_table(content: Seq<char>) -> Result<Seq<(Seq<char>, u32)>, Seq<char>>;

/// The mathematical values of a sequence of pairs.
pub open spec fn pairs_view(pairs: Seq<(String, u32)>) -> Seq<(Seq<char>, u32)> {
    pairs.map_values(|pair: (String, u32)| (pair.0@, pair.1))
}

/// The mathematical value of the outcome of reading a table.
pub open spec fn table_view(table: Result<Vec<(String, u32)>, String>) -> Result<
    Seq<(Seq<char>, u32)>,
    Seq<char>,
> {
    match table {
        Ok(pairs) => Ok(pairs_view(pairs@)),
        Err(message) => Err(message@),
    }
}

/// `toml::from_str` at the type `BTreeMap<String, u32>`. The pairs of the
/// map are handed out in the order in which the map holds them, which is the
/// ascending order of the keys; an error is handed out as the text that it
/// displays. Both depend on `content` alone.
#[verifier::external_body]
fn read_table(content: &str) -> (table: Result<Vec<(String, u32)>, String>)
    ensures
        table_view(table) == toml_table(content@),
{
    match toml::from_str::<BTreeMap<String, u32>>(content) {
        Ok(table) => Ok(table.into_iter().collect()),
        Err(error) => Err(error.to_string()),
    }
}

/// The entries that a table of pairs stands for.
pub open spec fn entries_of(pairs: Seq<(Seq<char>, u32)>) -> Seq<MappingEntryView> {
    pairs.map_values(|pair: (Seq<char>, u32)| MappingEntryView { raw_name: pair.0, id: pair.1 })
}

/// What loading gives for each outcome of reading the table.
pub open spec fn loaded(table: Result<Seq<(Seq<char>, u32)>, Seq<char>>) -> Result<
    Seq<MappingEntryView>,
    LabelErrorView,
> {
    match table {
        Ok(pairs) => Ok(entries_of(pairs)),
        Err(message) => Err(LabelErrorView::MappingParse { message }),
    }
}

/// The mathematical value of the outcome of loading a mapping.
pub open spec fn loaded_view(entries: Result<Vec<MappingEntry>, LabelError>) -> Result<
    Seq<MappingEntryView>,
    LabelErrorView,
> {
    match entries {
        Ok(entries) => Ok(entries_view(entries@)),
        Err(error) => Err(error@),
    }
}

/// Turns the outcome of reading the table into the entries of the mapping,
/// one for each pair and in the same order, or into the failure to report.
pub fn entries_from_table(table: Result<Vec<(String, u32)>, String>) -> (entries: Result<
    Vec<MappingEntry>,
    LabelError,
>)
    ensures
        loaded_view(entries) == loaded(table_view(table)),
{
    match table {
        Ok(pairs) => {
            let mut entries: Vec<MappingEntry> = Vec::new();
            let ghost all = pairs@;
            for pair in it: pairs.into_iter()
                invariant
                    it.seq() == all,
                    entries.len() == it.index(),
                    forall|j: int|
                        0 <= j < entries.len() ==> (#[trigger] entries[j])@ == (MappingEntryView {
                            raw_name: all[j].0@,
                            id: all[j].1,
                        }),
            {
                let (raw_name, id) = pair;
                entries.push(MappingEntry { raw_name, id });
            }
            assert(entries_view(entries@) =~= entries_of(pairs_view(all)));
            Ok(entries)
        },
        Err(message) => Err(LabelError::MappingParse { message }),
    }
}

/// Reads the content of a mapping file: a flat table from keys to unsigned
/// 32-bit integers.
pub fn load_mapping(content: &str) -> (entries: Result<Vec<MappingEntry>, LabelError>)
    ensures
        loaded_view(entries) == loaded(toml_table(content@)),
{
    entries_from_table(read_table(content))
}

} // verus!
