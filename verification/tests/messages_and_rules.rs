use arcs_deploy::text::split_char;
use arcs_deploy::webhook::polling::{parse_polling_id, PollingId};
use arcs_deploy::yaml::categories::CategoryError;
use arcs_deploy::yaml::correctness::{rules_from_settings, CategoryCorrectness, FlagCorrectness, PointCorrectness, YamlCorrectness};
use arcs_deploy::yaml::deploy::NetProtDeErr;
use arcs_deploy::yaml::files::{FileEntryError, FileErrors};
use arcs_deploy::yaml::flag::FlagError;
use arcs_deploy::yaml::lists::{AuthorError, HintError};
use arcs_deploy::yaml::shape::{verify_yaml, YamlVerifyError};
use arcs_deploy::yaml::value::{ValueType, ValueTypeEnum};

fn kind(type_enum: ValueTypeEnum) -> ValueType {
    ValueType { type_enum }
}

#[test]
fn splitting_keeps_empty_pieces() {
    assert_eq!(split_char("a,b,,c", ','), vec!["a", "b", "", "c"]);
    assert_eq!(split_char("", ','), vec![""]);
    assert_eq!(split_char("abc", ','), vec!["abc"]);
    assert_eq!(split_char("x,", ','), vec!["x", ""]);
}

#[test]
fn settings_make_rules() {
    let rules = rules_from_settings(Some("DEFAULT"), Some("DEFAULT"), Some(0));
    assert!(rules.check_flag("bcactf{x}"));
    assert!(!rules.check_flag("other{x}"));
    assert!(rules.check_pnts(50));
    assert!(!rules.check_pnts(30));
    let expected = "\n    The flag should be in the format of: `bcactf{<contents>}`\n    The categories should be one of [\"misc\", \"binex\", \"foren\", \"crypto\", \"webex\", \"rev\"] (case insensitive)\n    The point value MUST be multiple of 25\n";
    assert_eq!(rules.show_issue(), expected);
    let custom = rules_from_settings(Some("pwn,web"), Some("ctf"), Some(10));
    assert!(custom.check_flag("ctf{y}"));
    assert!(custom.check_pnts(30));
    let open = rules_from_settings(None, None, None);
    assert_eq!(open.show_issue(), "\n");
    assert_eq!(YamlCorrectness::default().show_issue(), "\n");
}

#[test]
fn rule_issues() {
    assert_eq!(FlagCorrectness::Any.show_issue(), "");
    assert_eq!(
        FlagCorrectness::CompName("bcactf".to_string()).show_issue(),
        "The flag should be in the format of: `bcactf{<contents>}`\n",
    );
    assert_eq!(
        CategoryCorrectness::List { names: vec!["a\"b".to_string()], requires_case_match: true }.show_issue(),
        "The categories should be one of [\"a\\\"b\"] (case SENSITIVE)\n",
    );
    assert_eq!(PointCorrectness::Multiple(7).show_issue(), "The point value MUST be multiple of 7\n");
}

#[test]
fn entry_error_messages() {
    assert_eq!(AuthorError::BadType(kind(ValueTypeEnum::Mapping)).message(), "Authors should be a list, not a dictionary.");
    assert_eq!(AuthorError::MissingKey.message(), "You have to define `authors`.");
    assert_eq!(HintError::BadEntryType(vec![]).message(), "Hints must be strings.");
    assert_eq!(FlagError::BadString("x".to_string()).message(), "The string x is not a valid flag.");
    assert_eq!(FlagError::MissingKey.message(), "You have to define `categories`.");
    assert_eq!(
        CategoryError::InvalidCategories(vec!["a".to_string()], vec![]).message(),
        "`a` is not a valid category name.",
    );
    assert_eq!(
        CategoryError::InvalidCategories(vec!["a".to_string(), "b".to_string()], vec![kind(ValueTypeEnum::Bool)]).message(),
        "`[\"a\", \"b\"]` are not valid category names.Category names must also be strings.",
    );
    assert_eq!(
        FileErrors::EntryErrors(vec![FileEntryError::SrcKeyNotDefined(3), FileEntryError::InvalidPath(4, "p".to_string())]).message(),
        "Some entries under `files` are invalid:\n        #3: Doesn't have a `src:` in it.\n        #4: src \"p\" is an invalid filepath.\n",
    );
    assert_eq!(NetProtDeErr::BadPort("http".to_string()).message(), "http is not a valid port number!");
}

#[test]
fn description_error_messages() {
    match verify_yaml("- a\n", None) {
        Err(e) => assert_eq!(e.message(), "The yaml file must have `key: value` pairs\n"),
        Ok(_) => panic!("a list is no description"),
    }
    let text = "categories: [webex]\nauthors: [a]\nhints: []\nvalue: -5\nflag: f\nname: n\ndescription: d\nvisible: true\n";
    match verify_yaml(text, None) {
        Err(e @ YamlVerifyError::PartErrors(_)) => assert_eq!(
            e.message(),
            "Yaml failed to verify:\n    The value should be an positive integer, not negative or fractional.\n",
        ),
        _ => panic!("expected part errors"),
    }
}

#[test]
fn polling_identifier_text_reads_back() {
    for (a, b) in [(0u128, u128::MAX), (42, 7), (u128::MAX, 0)] {
        let text = format!("{}.{}", uuid::Uuid::from_u128(a), uuid::Uuid::from_u128(b));
        assert_eq!(parse_polling_id(&text), Ok(PollingId::new(a, b)));
    }
}
