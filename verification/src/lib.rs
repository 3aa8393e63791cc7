//! Generation of label enumerations from a name-to-id mapping.
//!
//! A run turns the argument list `file = "path"` of an invocation and the
//! content of the mapping file at that path into an enumeration with one
//! variant for each entry of the mapping and a fallback variant for every
//! other id. It goes through its stages in a fixed order: the argument list
//! is parsed ([`args::parse_file_argument`]), the file is read by the caller,
//! the mapping is loaded, the target is validated, the entries are put in
//! order, the variants are derived and the enumeration is emitted
//! ([`toml_label`]). Each stage can end the run with a failure; no stage is
//! retried and nothing is emitted after a failure.

pub mod args;
pub mod error;
pub mod generated;
pub mod ident;
pub mod laws;
pub mod mapping;
pub mod order;
pub mod render;
pub mod text;

use vstd::prelude::*;
use crate::error::{LabelError, LabelErrorView};
use crate::generated::{derive_variants, derived_all, GeneratedEnum, GeneratedEnumView};
use crate::mapping::{
    entries_view, load_mapping, loaded, toml_table, MappingEntry, MappingEntryView,
};
use crate::order::{order_by_id, ordered_by_id};

verus! {

/// The declaration that the generator is applied to.
#[derive(Debug, PartialEq, Eq)]
pub enum Target {
    /// An enum. Its visibility and its name are taken over; its variants, if
    /// it has any, are not.
    Enum { visibility: String, name: String },
    /// A struct.
    Struct,
    /// A function.
    Function,
    /// Any other item.
    Other,
}

/// The mathematical value of a [`Target`].
pub ghost enum TargetView {
    Enum { visibility: Seq<char>, name: Seq<char> },
    Struct,
    Function,
    Other,
}

impl View for Target {
    type V = TargetView;

    open spec fn view(&self) -> TargetView {
        match self {
            Target::Enum { visibility, name } => TargetView::Enum {
                visibility: visibility@,
                name: name@,
            },
            Target::Struct => TargetView::Struct,
            Target::Function => TargetView::Function,
            Target::Other => TargetView::Other,
        }
    }
}

/// The mathematical value of the outcome of a run.
pub open spec fn outcome_view(outcome: Result<GeneratedEnum, LabelError>) -> Result<
    GeneratedEnumView,
    LabelErrorView,
> {
    match outcome {
        Ok(generated) => Ok(generated@),
        Err(error) => Err(error@),
    }
}

/// The mathematical value of the outcome of reading the mapping file: its
/// content, or the text of the error.
pub open spec fn file_view(file: Result<String, String>) -> Result<Seq<char>, Seq<char>> {
    match file {
        Ok(content) => Ok(content@),
        Err(message) => Err(message@),
    }
}

/// What is generated for a target from the entries of a mapping. Only an
/// enum is accepted. The enumeration has the visibility and the name of the
/// target, and one variant for each entry, in ascending order of the ids.
pub open spec fn generated_for(target: TargetView, entries: Seq<MappingEntryView>) -> Result<
    GeneratedEnumView,
    LabelErrorView,
> {
    match target {
        TargetView::Enum { visibility, name } => Ok(
            GeneratedEnumView {
                visibility,
                name,
                variants: derived_all(ordered_by_id(entries)),
            },
        ),
        _ => Err(LabelErrorView::TargetKind),
    }
}

/// The outcome of a run behind the parsing of the argument list, for the
/// path that the argument list names, the outcome of reading the file at
/// that path, and the target. A failure to read the file is reported with
/// the path; a failure to load the mapping comes before the refusal of a
/// target that is no enum.
pub open spec fn generation(
    path: Seq<char>,
    file: Result<Seq<char>, Seq<char>>,
    target: TargetView,
) -> Result<GeneratedEnumView, LabelErrorView> {
    match file {
        Err(message) => Err(LabelErrorView::FileRead { path, message }),
        Ok(content) => match loaded(toml_table(content)) {
            Err(error) => Err(error),
            Ok(entries) => generated_for(target, entries),
        },
    }
}

/// Validates the target, puts the entries of the mapping in order and
/// derives the enumeration from them.
pub fn generate(target: &Target, entries: Vec<MappingEntry>) -> (outcome: Result<
    GeneratedEnum,
    LabelError,
>)
    ensures
        outcome_view(outcome) == generated_for(target@, entries_view(entries@)),
{
    match target {
        Target::Enum { visibility, name } => {
            let variants = derive_variants(order_by_id(entries));
            Ok(GeneratedEnum { visibility: visibility.clone(), name: name.clone(), variants })
        },
        _ => Err(LabelError::TargetKind),
    }
}

/// Runs the generator behind the parsing of the argument list: `path` is the
/// path that the argument list names, `file` the outcome of reading the file
/// at that path as text.
pub fn toml_label(path: &str, file: &Result<String, String>, target: &Target) -> (outcome: Result<
    GeneratedEnum,
    LabelError,
>)
    ensures
        outcome_view(outcome) == generation(path@, file_view(*file), target@),
{
    match file {
        Err(message) => Err(
            LabelError::FileRead { path: path.to_owned(), message: message.clone() },
        ),
        Ok(content) => match load_mapping(content.as_str()) {
            Err(error) => Err(error),
            Ok(entries) => generate(target, entries),
        },
    }
}

} // verus!
