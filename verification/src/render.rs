//! The source text of a generated enumeration: the declaration of the
//! enumeration and the implementation of the conversions for it.

use vstd::prelude::*;
use vstd::string::StringExecFns;
use crate::generated::{
    variants_view, DerivedVariant, DerivedVariantView, GeneratedEnum, GeneratedEnumView,
};
use crate::text::{chars_of, decimal, hexadecimal, joined, push_decimal, push_hexadecimal};

verus! {

/// How one character of a text stands in a string literal: a double quote
/// and a backslash behind a backslash, any other printable ASCII character
/// as itself, and every other character as the escape `\u{..}` with its
/// code in hexadecimal notation.
pub open spec fn escaped(c: char) -> Seq<char> {
    let code = c as u32;
    if c == '"' {
        seq!['\\', '"']
    } else if c == '\\' {
        seq!['\\', '\\']
    } else if 0x20 <= code <= 0x7E {
        seq![c]
    } else {
        seq!['\\', 'u', '{'] + hexadecimal(code as nat) + seq!['}']
    }
}

/// The first `n` characters of `text` as they stand in a string literal.
pub open spec fn escaped_prefix(text: Seq<char>, n: int) -> Seq<char>
    decreases n,
{
    if n <= 0 {
        Seq::empty()
    } else {
        escaped_prefix(text, n - 1) + escaped(text[n - 1])
    }
}

/// The string literal that denotes `text`.
pub open spec fn literal(text: Seq<char>) -> Seq<char> {
    seq!['"'] + escaped_prefix(text, text.len() as int) + seq!['"']
}

/// Appends the string literal that denotes `text` to `out`.
pub fn push_literal(out: &mut String, text: &str)
    ensures
        final(out)@ == old(out)@ + literal(text@),
{
    let chars = chars_of(text);
    out.push('"');
    let mut i: usize = 0;
    while i < chars.len()
        invariant
            i <= chars.len(),
            chars@ == text@,
            out@ == old(out)@ + seq!['"'] + escaped_prefix(chars@, i as int),
        decreases chars.len() - i,
    {
        let c = chars[i];
        let code: u32 = c as u32;
        let ghost before = out@;
        if c == '"' {
            out.push('\\');
            out.push('"');
        } else if c == '\\' {
            out.push('\\');
            out.push('\\');
        } else if 0x20 <= code && code <= 0x7E {
            out.push(c);
        } else {
            out.push('\\');
            out.push('u');
            out.push('{');
            push_hexadecimal(out, code);
            out.push('}');
        }
        assert(out@ =~= before + escaped(c));
        i += 1;
    }
    out.push('"');
    assert(out@ =~= old(out)@ + literal(text@));
}

/// The places in the source text that hold one line for each variant.
#[derive(Clone, Copy, Debug, PartialEq, Eq)]
pub enum Section {
    /// The declaration of the enumeration.
    Declaration,
    /// The conversion from a numeric id.
    FromId,
    /// The conversion to the label text.
    LabelText,
    /// The conversion to the numeric id.
    LabelId,
}

/// The line that a section holds for a variant of the enumeration with the
/// given name.
pub open spec fn line(section: Section, name: Seq<char>, variant: DerivedVariantView) -> Seq<
    char,
> {
    match section {
        Section::Declaration => "    "@ + variant.identifier + ",\n"@,
        Section::FromId => "            "@ + decimal(variant.id as nat) + "u32 => "@ + name
            + "::"@ + variant.identifier + ",\n"@,
        Section::LabelText => "            "@ + name + "::"@ + variant.identifier
            + " => String::from("@ + literal(variant.raw_name) + "),\n"@,
        Section::LabelId => "            "@ + name + "::"@ + variant.identifier + " => "@
            + decimal(variant.id as nat) + "u32,\n"@,
    }
}

/// The lines that a section holds for the variants, in their order.
pub open spec fn lines(section: Section, name: Seq<char>, variants: Seq<DerivedVariantView>) -> Seq<
    char,
> {
    joined(variants.map_values(|variant: DerivedVariantView| line(section, name, variant)))
}

/// The visibility as it stands before the keyword `enum`: nothing for an
/// empty visibility, else the visibility and a space.
pub open spec fn visibility_prefix(visibility: Seq<char>) -> Seq<char> {
    if visibility.len() == 0 {
        visibility
    } else {
        visibility + " "@
    }
}

/// The declaration of the enumeration: the derived capabilities, the
/// visibility and the name, a line for each variant of the mapping, and the
/// fallback variant with its id at the end.
pub open spec fn declaration(enumeration: GeneratedEnumView) -> Seq<char> {
    "#[derive(Debug, Clone, Copy, PartialEq, Eq, Hash)]\n"@ + visibility_prefix(
        enumeration.visibility,
    ) + "enum "@ + enumeration.name + " {\n"@ + lines(
        Section::Declaration,
        enumeration.name,
        enumeration.variants,
    ) + "    Unknown(u32),\n}\n"@
}

/// The constant that holds the count of the variants of the mapping.
pub open spec fn label_num_constant(enumeration: GeneratedEnumView) -> Seq<char> {
    "    const LABEL_NUM: u32 = "@ + decimal(enumeration.variants.len()) + "u32;\n"@
}

/// The conversion from a numeric id: an arm for every variant of the
/// mapping in the order of declaration, so that the first variant with an
/// id is the one that the id converts to, and a last arm that converts
/// every other id to the fallback variant.
pub open spec fn from_label_id_method(enumeration: GeneratedEnumView) -> Seq<char> {
    "    fn from_label_id(label_id: u32) -> Self {\n        match label_id {\n"@ + lines(
        Section::FromId,
        enumeration.name,
        enumeration.variants,
    ) + "            i => "@ + enumeration.name + "::Unknown(i),\n        }\n    }\n"@
}

/// The conversion to the label text: the key for every variant of the
/// mapping, and `unknown` with the carried id for the fallback variant.
pub open spec fn to_label_str_method(enumeration: GeneratedEnumView) -> Seq<char> {
    "    fn to_label_str(&self) -> String {\n        match self {\n"@ + lines(
        Section::LabelText,
        enumeration.name,
        enumeration.variants,
    ) + "            "@ + enumeration.name
        + "::Unknown(i) => format!(\"unknown{}\", i),\n        }\n    }\n"@
}

/// The conversion to the numeric id: the id of the entry for every variant
/// of the mapping, and the carried id for the fallback variant.
pub open spec fn to_label_id_method(enumeration: GeneratedEnumView) -> Seq<char> {
    "    fn to_label_id(&self) -> u32 {\n        match self {\n"@ + lines(
        Section::LabelId,
        enumeration.name,
        enumeration.variants,
    ) + "            "@ + enumeration.name + "::Unknown(i) => *i,\n        }\n    }\n"@
}

/// The implementation of the conversions for the enumeration: the count of
/// the variants of the mapping and the three conversions.
pub open spec fn implementation(enumeration: GeneratedEnumView) -> Seq<char> {
    "impl WithLabel for "@ + enumeration.name + " {\n"@ + label_num_constant(enumeration)
        + from_label_id_method(enumeration) + to_label_str_method(enumeration)
        + to_label_id_method(enumeration) + "}\n"@
}

/// The source text of the enumeration: its declaration, an empty line, and
/// the implementation of the conversions.
pub open spec fn rendered(enumeration: GeneratedEnumView) -> Seq<char> {
    declaration(enumeration) + "\n"@ + implementation(enumeration)
}

/// Appends the line that a section holds for a variant.
pub fn push_line(out: &mut String, section: Section, name: &str, variant: &DerivedVariant)
    ensures
        final(out)@ == old(out)@ + line(section, name@, variant@),
{
    match section {
        Section::Declaration => {
            out.append("    ");
            out.append(variant.identifier.as_str());
            out.append(",\n");
        },
        Section::FromId => {
            out.append("            ");
            push_decimal(out, variant.id as u64);
            out.append("u32 => ");
            out.append(name);
            out.append("::");
            out.append(variant.identifier.as_str());
            out.append(",\n");
        },
        Section::LabelText => {
            out.append("            ");
            out.append(name);
            out.append("::");
            out.append(variant.identifier.as_str());
            out.append(" => String::from(");
            push_literal(out, variant.raw_name.as_str());
            out.append("),\n");
        },
        Section::LabelId => {
            out.append("            ");
            out.append(name);
            out.append("::");
            out.append(variant.identifier.as_str());
            out.append(" => ");
            push_decimal(out, variant.id as u64);
            out.append("u32,\n");
        },
    }
    assert(out@ =~= old(out)@ + line(section, name@, variant@));
}

/// Appends the lines that a section holds for the variants.
pub fn push_lines(out: &mut String, section: Section, name: &str, variants: &Vec<DerivedVariant>)
    ensures
        final(out)@ == old(out)@ + lines(section, name@, variants_view(variants@)),
{
    let ghost all = variants_view(variants@);
    let ghost each = |variant: DerivedVariantView| line(section, name@, variant);
    let mut i: usize = 0;
    while i < variants.len()
        invariant
            i <= variants.len(),
            all == variants_view(variants@),
            each == |variant: DerivedVariantView| line(section, name@, variant),
            out@ == old(out)@ + joined(all.take(i as int).map_values(each)),
        decreases variants.len() - i,
    {
        push_line(out, section, name, &variants[i]);
        proof {
            let longer = all.take(i + 1).map_values(each);
            assert(longer.drop_last() =~= all.take(i as int).map_values(each));
            assert(longer.last() == line(section, name@, variants@[i as int]@));
        }
        i += 1;
    }
    assert(all.take(variants.len() as int) == all);
}

impl GeneratedEnum {
    /// Appends the declaration of the enumeration.
    fn push_declaration(&self, out: &mut String)
        ensures
            final(out)@ == old(out)@ + declaration(self@),
    {
        out.append("#[derive(Debug, Clone, Copy, PartialEq, Eq, Hash)]\n");
        if self.visibility.as_str().unicode_len() > 0 {
            out.append(self.visibility.as_str());
            out.append(" ");
        }
        out.append("enum ");
        out.append(self.name.as_str());
        out.append(" {\n");
        push_lines(out, Section::Declaration, self.name.as_str(), &self.variants);
        out.append("    Unknown(u32),\n}\n");
        assert(out@ =~= old(out)@ + declaration(self@));
    }

    /// Appends the constant that holds the count of the variants.
    fn push_label_num_constant(&self, out: &mut String)
        ensures
            final(out)@ == old(out)@ + label_num_constant(self@),
    {
        out.append("    const LABEL_NUM: u32 = ");
        push_decimal(out, self.variants.len() as u64);
        out.append("u32;\n");
        assert(out@ =~= old(out)@ + label_num_constant(self@));
    }

    /// Appends the conversion from a numeric id.
    fn push_from_label_id_method(&self, out: &mut String)
        ensures
            final(out)@ == old(out)@ + from_label_id_method(self@),
    {
        out.append("    fn from_label_id(label_id: u32) -> Self {\n        match label_id {\n");
        push_lines(out, Section::FromId, self.name.as_str(), &self.variants);
        out.append("            i => ");
        out.append(self.name.as_str());
        out.append("::Unknown(i),\n        }\n    }\n");
        assert(out@ =~= old(out)@ + from_label_id_method(self@));
    }

    /// Appends the conversion to the label text.
    fn push_to_label_str_method(&self, out: &mut String)
        ensures
            final(out)@ == old(out)@ + to_label_str_method(self@),
    {
        out.append("    fn to_label_str(&self) -> String {\n        match self {\n");
        push_lines(out, Section::LabelText, self.name.as_str(), &self.variants);
        out.append("            ");
        out.append(self.name.as_str());
        out.append("::Unknown(i) => format!(\"unknown{}\", i),\n        }\n    }\n");
        assert(out@ =~= old(out)@ + to_label_str_method(self@));
    }

    /// Appends the conversion to the numeric id.
    fn push_to_label_id_method(&self, out: &mut String)
        ensures
            final(out)@ == old(out)@ + to_label_id_method(self@),
    {
        out.append("    fn to_label_id(&self) -> u32 {\n        match self {\n");
        push_lines(out, Section::LabelId, self.name.as_str(), &self.variants);
        out.append("            ");
        out.append(self.name.as_str());
        out.append("::Unknown(i) => *i,\n        }\n    }\n");
        assert(out@ =~= old(out)@ + to_label_id_method(self@));
    }

    /// Appends the implementation of the conversions.
    fn push_implementation(&self, out: &mut String)
        ensures
            final(out)@ == old(out)@ + implementation(self@),
    {
        out.append("impl WithLabel for ");
        out.append(self.name.as_str());
        out.append(" {\n");
        self.push_label_num_constant(out);
        self.push_from_label_id_method(out);
        self.push_to_label_str_method(out);
        self.push_to_label_id_method(out);
        out.append("}\n");
        assert(out@ =~= old(out)@ + implementation(self@));
    }

    /// The source text of the enumeration.
    pub fn render(&self) -> (text: String)
        ensures
            text@ == rendered(self@),
    {
        let mut text = String::new();
        self.push_declaration(&mut text);
        text.append("\n");
        self.push_implementation(&mut text);
        assert(text@ =~= rendered(self@));
        text
    }
}

} // verus!
