use arcs_deploy::editor::{
    try_replace, try_replace_categories, try_replace_description, try_replace_name, try_replace_points,
    try_replace_tags, EntryValue, Locations, Modifications,
};

const YAML: &str = "
categories:
    - webex
value: 50
flag: aaaaaaaaa
description: |-
    Describing this is so fun and I love writing words.
    Y'know?
hints:
    - How do forms send values?
authors:
    - Bloop
visible: true
name: Hidden Values
";

fn span_text(text: &str, span: (usize, usize)) -> String {
    text[span.0..span.1].to_string()
}

#[test]
fn entries_are_located() {
    let locations = Locations::try_find(YAML).expect("all entries present");
    assert_eq!(span_text(YAML, locations.points), "value: 50");
    assert_eq!(span_text(YAML, locations.name), "name: Hidden Values");
    assert_eq!(span_text(YAML, locations.visible), "visible: true");
    assert_eq!(span_text(YAML, locations.categories), "categories:\n    - webex");
    assert_eq!(
        span_text(YAML, locations.description),
        "description: |-\n    Describing this is so fun and I love writing words.\n    Y'know?",
    );
    assert_eq!(locations.tags, None);
}

#[test]
fn missing_entries_are_not_located() {
    assert_eq!(Locations::try_find("name: x\n"), None);
    assert_eq!(Locations::try_find("- a\n- b\n"), None);
}

#[test]
fn points_are_replaced_in_place() {
    let edited = try_replace_points(YAML, 25).expect("edit");
    assert_eq!(edited, YAML.replace("value: 50", "value: 25"));
}

#[test]
fn name_is_replaced_in_place() {
    let edited = try_replace_name(YAML, "New Name").expect("edit");
    assert_eq!(edited, YAML.replace("name: Hidden Values", "name: New Name"));
}

#[test]
fn description_is_replaced_in_place() {
    let edited = try_replace_description(YAML, "Short").expect("edit");
    let expected = YAML.replace(
        "description: |-\n    Describing this is so fun and I love writing words.\n    Y'know?",
        "description: Short",
    );
    assert_eq!(edited, expected);
}

#[test]
fn categories_are_rewritten() {
    let edited = try_replace_categories(YAML, &["misc".to_string()]).expect("edit");
    let locations = Locations::try_find(&edited).expect("still valid");
    assert!(span_text(&edited, locations.categories).contains("misc"));
    assert!(!edited.contains("webex"));
}

#[test]
fn tags_are_added_then_removed() {
    let tags = vec!["tag1".to_string(), "tag2".to_string()];
    let with_tags = try_replace_tags(YAML, &tags).expect("edit");
    assert!(with_tags.starts_with(YAML.trim_end_matches('\n')));
    let locations = Locations::try_find(&with_tags).expect("still valid");
    let tag_text = span_text(&with_tags, locations.tags.expect("tags now present"));
    assert!(tag_text.starts_with("tags:"));
    assert!(tag_text.contains("tag1") && tag_text.contains("tag2"));
    let without = try_replace_tags(&with_tags, &[]).expect("edit");
    assert_eq!(without, format!("{}\n", YAML.trim_end_matches('\n')));
    assert_eq!(try_replace_tags(YAML, &[]).expect("edit"), YAML);
}

#[test]
fn replacing_a_span_keeps_the_rest() {
    let text = "a: 1\nb: 2\n";
    assert_eq!(try_replace(text, "a", &EntryValue::Integer(7), (0, 4)), Some("a: 7\nb: 2\n".to_string()));
}

#[test]
fn modifications_apply_in_turn() {
    let edits = Modifications {
        name: Some("Renamed".to_string()),
        desc: None,
        points: Some(100),
        categories: None,
        tags: None,
    };
    let edited = edits.apply(YAML).expect("edit");
    assert_eq!(edited, YAML.replace("name: Hidden Values", "name: Renamed").replace("value: 50", "value: 100"));
    let nothing = Modifications { name: None, desc: None, points: None, categories: None, tags: None };
    assert_eq!(nothing.apply(YAML), Some(YAML.to_string()));
    assert_eq!(edits.apply("not: [a description"), None);
}

const ACCENTED: &str = "categories:\n    - webex\ndescription: Café crème\nvalue: 50\nvisible: true\nname: Bébé\n";

#[test]
fn spans_count_bytes_in_non_ascii_text() {
    let locations = Locations::try_find(ACCENTED).expect("all entries present");
    assert_eq!(locations.description, (24, 49));
    assert_eq!(span_text(ACCENTED, locations.description), "description: Café crème");
    assert_eq!(locations.points, (50, 59));
    assert_eq!(span_text(ACCENTED, locations.points), "value: 50");
    assert_eq!(span_text(ACCENTED, locations.name), "name: Bébé");
    let edited = try_replace_points(ACCENTED, 75).expect("edit");
    assert_eq!(edited, ACCENTED.replace("value: 50", "value: 75"));
}

#[test]
fn a_span_ends_after_a_two_byte_character() {
    let text = "é: 1\n";
    assert_eq!(try_replace(text, "a", &EntryValue::Integer(7), (0, 2)), Some("a: 7: 1\n".to_string()));
}
