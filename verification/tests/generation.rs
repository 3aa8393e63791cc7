use toml_label::error::LabelError;
use toml_label::generated::{DerivedVariant, GeneratedEnum, Label};
use toml_label::mapping::MappingEntry;
use toml_label::{generate, toml_label, Target};

fn target() -> Target {
    Target::Enum { visibility: String::from("pub"), name: String::from("MyLabel") }
}

fn content(text: &str) -> Result<String, String> {
    Ok(String::from(text))
}

fn run(text: &str) -> GeneratedEnum {
    toml_label("labels.toml", &content(text), &target()).unwrap()
}

fn identifiers(generated: &GeneratedEnum) -> Vec<&str> {
    generated.variants.iter().map(|variant| variant.identifier.as_str()).collect()
}

fn ids(generated: &GeneratedEnum) -> Vec<u32> {
    generated.variants.iter().map(|variant| variant.id).collect()
}

#[test]
fn cat_and_dog() {
    let generated = run("cat = 0\ndog = 1\n");
    assert_eq!(identifiers(&generated), vec!["Cat", "Dog"]);
    assert_eq!(generated.label_num(), 2);
    assert_eq!(generated.from_label_id(1).to_label_str(), "dog");
    assert_eq!(generated.from_label_id(5).to_label_str(), "unknown5");
    assert_eq!(generated.from_label_id(0).to_label_str(), "cat");
    assert_eq!(generated.from_label_id(1).to_label_id(), 1);
    assert_eq!(generated.from_label_id(5), Label::Unknown(5));
}

#[test]
fn name_and_visibility_are_those_of_the_target() {
    let generated = run("cat = 0\n");
    assert_eq!(generated.name, "MyLabel");
    assert_eq!(generated.visibility, "pub");
    let private = Target::Enum { visibility: String::new(), name: String::from("Inner") };
    let generated = toml_label("x.toml", &content("a = 1\n"), &private).unwrap();
    assert_eq!(generated.name, "Inner");
    assert_eq!(generated.visibility, "");
}

#[test]
fn key_with_a_space_gives_one_identifier() {
    let generated = run("\"big dog\" = 2\n");
    assert_eq!(
        generated.variants,
        vec![DerivedVariant {
            identifier: String::from("BigDog"),
            id: 2,
            raw_name: String::from("big dog"),
        }]
    );
    assert_eq!(generated.from_label_id(2).to_label_str(), "big dog");
}

#[test]
fn label_num_is_the_number_of_keys() {
    assert_eq!(run("").label_num(), 0);
    assert_eq!(run("a = 1\n").label_num(), 1);
    assert_eq!(run("a = 1\nb = 1\nc = 1\n").label_num(), 3);
    let mut text = String::new();
    for position in 0..150 {
        text.push_str(&format!("key{} = {}\n", position, position * 3));
    }
    assert_eq!(run(&text).label_num(), 150);
}

#[test]
fn every_id_of_the_mapping_makes_the_round_trip() {
    let generated = run("red = 3\n\"dark green\" = 10\nblue = 4000000000\nzero = 0\n");
    for (name, id) in [("red", 3u32), ("dark green", 10), ("blue", 4000000000), ("zero", 0)] {
        let label = generated.from_label_id(id);
        assert_eq!(label.to_label_id(), id);
        assert_eq!(label.to_label_str(), name);
    }
}

#[test]
fn every_other_id_falls_back() {
    let generated = run("red = 3\nblue = 7\n");
    for id in [0u32, 1, 2, 4, 5, 6, 8, 100, u32::MAX] {
        let label = generated.from_label_id(id);
        assert_eq!(label, Label::Unknown(id));
        assert_eq!(label.to_label_str(), format!("unknown{}", id));
        assert_eq!(label.to_label_id(), id);
    }
}

#[test]
fn two_runs_on_the_same_file_end_alike() {
    let text = "zebra = 2\nant = 2\n\"big dog\" = 1\ncat = 0\n";
    let first = toml_label("labels.toml", &content(text), &target());
    let second = toml_label("labels.toml", &content(text), &target());
    assert_eq!(first, second);
    assert_eq!(first.unwrap().render(), second.unwrap().render());
    let failed = toml_label("labels.toml", &content("cat = \n"), &target());
    assert_eq!(failed, toml_label("labels.toml", &content("cat = \n"), &target()));
}

#[test]
fn variants_are_in_ascending_order_of_ids() {
    let generated = run("d = 40\na = 30\nc = 10\nb = 20\ne = 0\n");
    assert_eq!(ids(&generated), vec![0, 10, 20, 30, 40]);
    assert_eq!(identifiers(&generated), vec!["E", "C", "B", "A", "D"]);
}

#[test]
fn order_of_the_keys_in_the_file_does_not_matter() {
    let first = run("cat = 0\ndog = 1\nemu = 2\nfox = 2\n");
    let second = run("fox = 2\nemu = 2\ndog = 1\ncat = 0\n");
    let third = run("emu = 2\ncat = 0\nfox = 2\ndog = 1\n");
    assert_eq!(first, second);
    assert_eq!(first, third);
    assert_eq!(ids(&first), vec![0, 1, 2, 2]);
}

#[test]
fn shared_id_converts_to_the_first_variant() {
    let generated = run("puma = 4\ncougar = 4\nowl = 1\n");
    assert_eq!(identifiers(&generated), vec!["Owl", "Cougar", "Puma"]);
    assert_eq!(generated.label_num(), 3);
    let label = generated.from_label_id(4);
    assert_eq!(label.to_label_str(), "cougar");
    assert_eq!(label.to_label_id(), 4);
}

#[test]
fn empty_mapping_gives_only_the_fallback() {
    let generated = run("");
    assert_eq!(generated.label_num(), 0);
    assert!(generated.variants.is_empty());
    assert_eq!(generated.from_label_id(0), Label::Unknown(0));
    assert_eq!(generated.from_label_id(0).to_label_str(), "unknown0");
    assert_eq!(generated.from_label_id(77).to_label_id(), 77);
}

#[test]
fn struct_is_refused() {
    let error = toml_label("labels.toml", &content("cat = 0\n"), &Target::Struct).unwrap_err();
    assert_eq!(error, LabelError::TargetKind);
    assert_eq!(error.message(), "This macro can only be used on enums");
    assert!(!error.is_located());
}

#[test]
fn function_and_other_items_are_refused() {
    for target in [Target::Function, Target::Other] {
        let error = toml_label("labels.toml", &content("cat = 0\n"), &target).unwrap_err();
        assert_eq!(error, LabelError::TargetKind);
        assert_eq!(error.message(), "This macro can only be used on enums");
    }
}

#[test]
fn unreadable_file_is_reported_with_its_path() {
    let file: Result<String, String> = Err(String::from("No such file or directory (os error 2)"));
    let error = toml_label("missing/labels.toml", &file, &target()).unwrap_err();
    assert_eq!(
        error,
        LabelError::FileRead {
            path: String::from("missing/labels.toml"),
            message: String::from("No such file or directory (os error 2)"),
        }
    );
    assert_eq!(
        error.message(),
        "Failed to read file missing/labels.toml: No such file or directory (os error 2)"
    );
    assert!(error.is_located());
}

#[test]
fn malformed_file_is_reported_with_the_text_of_the_parser() {
    let error = toml_label("labels.toml", &content("cat = \"zero\"\n"), &target()).unwrap_err();
    match &error {
        LabelError::MappingParse { message } => assert!(!message.is_empty()),
        other => panic!("unexpected failure: {:?}", other),
    }
    assert!(error.message().starts_with("Failed to parse TOML file: "));
    assert!(error.message().len() > "Failed to parse TOML file: ".len());
    assert!(error.is_located());
}

#[test]
fn failure_to_read_comes_before_the_target() {
    let file: Result<String, String> = Err(String::from("denied"));
    let error = toml_label("labels.toml", &file, &Target::Struct).unwrap_err();
    assert!(matches!(error, LabelError::FileRead { .. }));
}

#[test]
fn failure_to_parse_comes_before_the_target() {
    let error = toml_label("labels.toml", &content("cat = \n"), &Target::Struct).unwrap_err();
    assert!(matches!(error, LabelError::MappingParse { .. }));
}

#[test]
fn entries_are_ordered_and_derived() {
    let entries = vec![
        MappingEntry { raw_name: String::from("late one"), id: 9 },
        MappingEntry { raw_name: String::from("early"), id: 1 },
    ];
    let generated = generate(&target(), entries).unwrap();
    assert_eq!(identifiers(&generated), vec!["Early", "LateOne"]);
    assert_eq!(ids(&generated), vec![1, 9]);
    assert_eq!(generated.name, "MyLabel");
}

#[test]
fn entries_for_a_struct_are_refused() {
    let entries = vec![MappingEntry { raw_name: String::from("cat"), id: 0 }];
    assert_eq!(generate(&Target::Struct, entries), Err(LabelError::TargetKind));
    assert_eq!(generate(&Target::Other, vec![]), Err(LabelError::TargetKind));
}

#[test]
fn key_that_gives_no_identifier_is_derived_as_it_is() {
    let generated = run("\"1st place\" = 1\n\"a-b\" = 2\n\"\" = 3\n");
    assert_eq!(identifiers(&generated), vec!["1stPlace", "A-b", ""]);
    assert_eq!(generated.from_label_id(3).to_label_str(), "");
    assert_eq!(generated.from_label_id(2).to_label_str(), "a-b");
}
