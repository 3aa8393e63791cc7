use toml_label::generated::{
    derive_variant, derive_variants, DerivedVariant, GeneratedEnum, Label,
};
use toml_label::mapping::MappingEntry;

fn entry(raw_name: &str, id: u32) -> MappingEntry {
    MappingEntry { raw_name: String::from(raw_name), id }
}

fn variant(identifier: &str, id: u32, raw_name: &str) -> DerivedVariant {
    DerivedVariant { identifier: String::from(identifier), id, raw_name: String::from(raw_name) }
}

fn enumeration(variants: Vec<DerivedVariant>) -> GeneratedEnum {
    GeneratedEnum { visibility: String::from("pub"), name: String::from("Animal"), variants }
}

fn animals() -> GeneratedEnum {
    enumeration(vec![variant("Cat", 0, "cat"), variant("Dog", 1, "dog")])
}

#[test]
fn variant_takes_id_and_key_from_the_entry() {
    assert_eq!(derive_variant(entry("big dog", 2)), variant("BigDog", 2, "big dog"));
    assert_eq!(derive_variant(entry("cat", 0)), variant("Cat", 0, "cat"));
}

#[test]
fn variants_are_derived_one_for_each_entry() {
    assert_eq!(
        derive_variants(vec![entry("cat", 0), entry("big dog", 2), entry("", 9)]),
        vec![variant("Cat", 0, "cat"), variant("BigDog", 2, "big dog"), variant("", 9, "")]
    );
    assert_eq!(derive_variants(vec![]), vec![]);
}

#[test]
fn colliding_identifiers_are_not_detected() {
    assert_eq!(
        derive_variants(vec![entry("big dog", 1), entry("bigDog", 2)]),
        vec![variant("BigDog", 1, "big dog"), variant("BigDog", 2, "bigDog")]
    );
}

#[test]
fn label_num_counts_the_variants() {
    assert_eq!(animals().label_num(), 2);
    assert_eq!(enumeration(vec![]).label_num(), 0);
    assert_eq!(enumeration(vec![variant("A", 7, "a")]).label_num(), 1);
}

#[test]
fn known_id_gives_its_variant() {
    let animals = animals();
    assert_eq!(animals.from_label_id(0), Label::Variant(&variant("Cat", 0, "cat")));
    assert_eq!(animals.from_label_id(1), Label::Variant(&variant("Dog", 1, "dog")));
}

#[test]
fn unknown_id_gives_the_fallback() {
    let animals = animals();
    assert_eq!(animals.from_label_id(5), Label::Unknown(5));
    assert_eq!(animals.from_label_id(2), Label::Unknown(2));
    assert_eq!(animals.from_label_id(u32::MAX), Label::Unknown(u32::MAX));
}

#[test]
fn label_text_of_a_variant_is_the_key() {
    let animals = animals();
    assert_eq!(animals.from_label_id(1).to_label_str(), "dog");
    assert_eq!(Label::Variant(&variant("BigDog", 2, "big dog")).to_label_str(), "big dog");
}

#[test]
fn label_text_of_the_fallback_is_unknown_and_the_id() {
    assert_eq!(animals().from_label_id(5).to_label_str(), "unknown5");
    assert_eq!(Label::Unknown(0).to_label_str(), "unknown0");
    assert_eq!(Label::Unknown(4294967295).to_label_str(), "unknown4294967295");
    assert_eq!(Label::Unknown(1200).to_label_str(), "unknown1200");
}

#[test]
fn label_id_of_a_variant_is_the_id_of_the_entry() {
    assert_eq!(Label::Variant(&variant("Cat", 17, "cat")).to_label_id(), 17);
    assert_eq!(Label::Unknown(23).to_label_id(), 23);
}

#[test]
fn round_trip_for_known_ids() {
    let colours = enumeration(vec![
        variant("Red", 3, "red"),
        variant("DarkGreen", 10, "dark green"),
        variant("Blue", 4000000000, "blue"),
    ]);
    for (id, name) in [(3u32, "red"), (10, "dark green"), (4000000000, "blue")] {
        let label = colours.from_label_id(id);
        assert!(matches!(label, Label::Variant(_)));
        assert_eq!(label.to_label_id(), id);
        assert_eq!(label.to_label_str(), name);
    }
}

#[test]
fn fallback_for_every_other_id() {
    let colours = enumeration(vec![variant("Red", 3, "red"), variant("Blue", 7, "blue")]);
    for id in 0u32..64 {
        if id == 3 || id == 7 {
            continue;
        }
        let label = colours.from_label_id(id);
        assert_eq!(label, Label::Unknown(id));
        assert_eq!(label.to_label_id(), id);
        assert_eq!(label.to_label_str(), format!("unknown{}", id));
    }
}

#[test]
fn first_variant_with_an_id_wins() {
    let aliases = enumeration(vec![
        variant("Zero", 0, "zero"),
        variant("Puma", 4, "puma"),
        variant("Cougar", 4, "cougar"),
        variant("Five", 5, "five"),
    ]);
    let label = aliases.from_label_id(4);
    assert_eq!(label.to_label_str(), "puma");
    assert_eq!(label.to_label_id(), 4);
    assert_eq!(aliases.label_num(), 4);
}

#[test]
fn enumeration_without_variants_has_only_the_fallback() {
    let empty = enumeration(vec![]);
    assert_eq!(empty.label_num(), 0);
    for id in [0u32, 1, 2, 1000, u32::MAX] {
        assert_eq!(empty.from_label_id(id), Label::Unknown(id));
    }
}
