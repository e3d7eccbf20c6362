use arcs_deploy::yaml::categories::{Categories, Category};
use arcs_deploy::yaml::correctness::{
    CanBePred, CategoryCorrectness, FlagCorrectness, FlagRegex, PointCorrectness, YamlCorrectness,
};
use arcs_deploy::yaml::deploy::{deserialize, DeployOptions, DeployTarget, NetProtDeErr, NetworkProtocol};
use arcs_deploy::yaml::shape::{verify_yaml, YamlAttribVerifyError, YamlShape, YamlVerifyError};
use arcs_deploy::yaml::value::{get_type, ValueTypeEnum, YamlValue};

const GOOD_YAML: &str = "
categories:
    - webex
value: 50
flag: bcactf{hidden_values}
description: |-
    Describing this is so fun.
hints:
    - How do forms send values?
authors:
    - Bloop
visible: true
name: Hidden Values
deploy:
    web:
        expose: 8080/tcp
    nc:
        expose: 1337/udp
        replicas: 3
";

fn competition_rules() -> YamlCorrectness {
    YamlCorrectness::default_rules()
        .with_flag(FlagCorrectness::CompName("bcactf".to_string()))
        .with_cats(CategoryCorrectness::List {
            names: vec!["misc".to_string(), "webex".to_string()],
            requires_case_match: false,
        })
        .with_pnts(PointCorrectness::Multiple(25))
}

#[test]
fn good_description_is_accepted() {
    let shape = accepted(verify_yaml(GOOD_YAML, Some(competition_rules())), "valid description");
    assert_eq!(shape.chall_name(), "Hidden Values");
    assert_eq!(shape.description(), "Describing this is so fun.");
    assert_eq!(shape.points(), 50);
    assert!(shape.visible());
    assert_eq!(shape.authors(), &["Bloop".to_string()]);
    assert_eq!(shape.hints(), &["How do forms send values?".to_string()]);
    assert_eq!(shape.category_str_iter(), vec!["webex"]);
    assert_eq!(shape.flag_str(), Some("bcactf{hidden_values}"));
    assert_eq!(shape.flag_filepath(), None);
    assert!(shape.files().is_none());
    let deploy = shape.deploy().expect("deploy section");
    let web = deploy.web.expect("web target");
    assert_eq!(web.expose, NetworkProtocol::Tcp(8080));
    assert_eq!(web.replicas, 1);
    assert!(deploy.admin.is_none());
    let nc = deploy.nc.expect("nc target");
    assert_eq!(nc.expose, NetworkProtocol::Udp(1337));
    assert_eq!(nc.replicas, 3);
}

#[test]
fn without_rules_anything_well_formed_passes() {
    let text = GOOD_YAML.replace("value: 50", "value: 7").replace("bcactf{hidden_values}", "other");
    let shape = accepted(verify_yaml(&text, None), "well-formed description");
    assert_eq!(shape.points(), 7);
    assert_eq!(shape.flag_str(), Some("other"));
}

#[test]
fn broken_rules_are_reported() {
    let text = GOOD_YAML.replace("value: 50", "value: 30");
    match verify_yaml(&text, Some(competition_rules())) {
        Err(YamlVerifyError::Correctness(broken)) => {
            assert!(broken.check_flag("anything"));
            assert!(!broken.check_pnts(30));
            assert!(broken.check_pnts(50));
        },
        other => panic!("expected a correctness failure, got {:?}", other.is_ok()),
    }
}

#[test]
fn unparsable_text_is_refused() {
    assert!(matches!(verify_yaml("key: [unclosed", None), Err(YamlVerifyError::Unparsable(_))));
}

#[test]
fn document_must_be_a_mapping() {
    match verify_yaml("- a\n- b\n", None) {
        Err(YamlVerifyError::BaseNotMap(t)) => assert_eq!(t.type_enum, ValueTypeEnum::Sequence),
        _ => panic!("expected BaseNotMap"),
    }
}

#[test]
fn every_wrong_entry_is_reported_in_order() {
    let text = "categories: [webex]\nauthors: [a]\nhints: []\nvalue: -5\nflag: f\nname: 3\ndescription: d\nvisible: yes\n";
    match verify_yaml(text, None) {
        Err(YamlVerifyError::PartErrors(errs)) => {
            assert_eq!(errs.len(), 3);
            assert!(matches!(errs[0], YamlAttribVerifyError::PointsNotInt(_)));
            assert!(matches!(errs[1], YamlAttribVerifyError::NameNotString(_)));
            assert!(matches!(errs[2], YamlAttribVerifyError::VisNotBool(_)));
        },
        _ => panic!("expected part errors"),
    }
}

#[test]
fn flag_may_name_a_file() {
    let text = GOOD_YAML.replace("flag: bcactf{hidden_values}", "flag:\n    file: ./flag.txt");
    let shape = accepted(verify_yaml(&text, Some(competition_rules())), "file flags skip the flag rule");
    assert_eq!(shape.flag_str(), None);
    assert_eq!(shape.flag_filepath(), Some("./flag.txt"));
}

#[test]
fn comp_name_rule_checks_the_flag_form() {
    let rule = FlagCorrectness::CompName("bcactf".to_string());
    assert!(rule.check("bcactf{x}"));
    assert!(!rule.check("bcactf{x"));
    assert!(!rule.check("ctf{x}"));
    assert!(FlagCorrectness::Any.check("whatever"));
}

#[test]
fn regex_rule_checks_the_flag() {
    let regex = FlagRegex::new("^ctf\\{[a-z]+\\}$").expect("valid expression");
    assert_eq!(regex.as_str(), "^ctf\\{[a-z]+\\}$");
    let rule = FlagCorrectness::Regex(regex);
    assert!(rule.check("ctf{abc}"));
    assert!(!rule.check("ctf{ABC}"));
    assert!(FlagRegex::new("(").is_none());
}

#[test]
fn category_rule_ignores_case_when_asked() {
    let cats = Categories::try_new(vec!["WebEx".to_string()]).expect("names make categories");
    let loose = CategoryCorrectness::List { names: vec!["webex".to_string()], requires_case_match: false };
    let strict = CategoryCorrectness::List { names: vec!["webex".to_string()], requires_case_match: true };
    assert!(loose.check(cats.slice()));
    assert!(!strict.check(cats.slice()));
    assert!(CategoryCorrectness::AnyStr.check(cats.slice()));
    assert_eq!(cats.iter().map(Category::as_str).collect::<Vec<_>>(), vec!["WebEx"]);
}

#[test]
fn point_rule_checks_multiples() {
    assert!(PointCorrectness::Multiple(25).check(75));
    assert!(!PointCorrectness::Multiple(25).check(80));
    assert!(PointCorrectness::Any.check(3));
}

#[test]
fn default_rules_accept_everything() {
    let rules = YamlCorrectness::default_rules();
    assert!(rules.check_flag("x"));
    assert!(rules.check_pnts(1));
    assert!(rules.check_cats(&[]));
}

#[test]
fn network_protocol_text_round_trips() {
    for p in [NetworkProtocol::Tcp(80), NetworkProtocol::Udp(0), NetworkProtocol::Tcp(4294967295)] {
        let text = p.to_text();
        assert_eq!(deserialize(&text), Ok(p));
    }
    assert_eq!(NetworkProtocol::Tcp(8080).to_text(), "8080/tcp");
    assert_eq!(NetworkProtocol::default_protocol(), NetworkProtocol::Tcp(8080));
    assert_eq!(NetworkProtocol::Udp(53).protocol(), "UDP");
    assert_eq!(NetworkProtocol::Udp(53).port(), 53);
    assert!(NetworkProtocol::Udp(53).is_udp());
    assert!(!NetworkProtocol::Udp(53).is_tcp());
}

#[test]
fn network_protocol_errors() {
    assert_eq!(deserialize("8080"), Err(NetProtDeErr::NoSlash));
    assert_eq!(deserialize("http/tcp"), Err(NetProtDeErr::BadPort("http".to_string())));
    assert_eq!(deserialize("80/sctp"), Err(NetProtDeErr::BadProtocol("sctp".to_string())));
    assert_eq!(deserialize("80/tcp/udp"), Err(NetProtDeErr::BadProtocol("tcp/udp".to_string())));
}

#[test]
fn value_types_are_named() {
    assert_eq!(get_type(&YamlValue::Bool(true)).get_str(), "a boolean");
    assert_eq!(get_type(&YamlValue::Null).get_str(), "`null`");
}

#[test]
fn targets_are_shown() {
    let web = DeployTarget { expose: NetworkProtocol::Tcp(8080), replicas: 1 };
    let nc = DeployTarget { expose: NetworkProtocol::Udp(53), replicas: 2 };
    assert_eq!(web.to_text(), "Target< 8080 (tcp) (1 replica) >");
    assert_eq!(nc.to_text(), "Target< 53 (udp) (2 replicas) >");
    let options = DeployOptions { web: None, admin: Some(web), nc: Some(nc) };
    assert_eq!(
        options.to_text(),
        "DeployOptions { admin: Target< 8080 (tcp) (1 replica) >, nc: Target< 53 (udp) (2 replicas) > }",
    );
    assert_eq!(DeployOptions { web: None, admin: None, nc: None }.to_text(), "DeployOptions");
    assert_eq!(PointCorrectness::Multiple(25).to_text(), "Multiple< of 25 >");
    assert_eq!(PointCorrectness::Any.to_text(), "None");
}

fn accepted(result: Result<YamlShape, YamlVerifyError>, what: &str) -> YamlShape {
    match result {
        Ok(shape) => shape,
        Err(e) => panic!("{what}: {}", e.message()),
    }
}

struct AtMost(u64);

impl CanBePred for AtMost {
    fn allows(&self, points: u64) -> bool {
        points <= self.0
    }

    fn description(&self) -> String {
        format!("at most {}", self.0)
    }

    fn call(&self, points: u64) -> bool {
        self.allows(points)
    }

    fn describe(&self) -> String {
        self.description()
    }
}

fn at_most(limit: u64) -> PointCorrectness {
    let rule: Box<dyn CanBePred> = Box::new(AtMost(limit));
    PointCorrectness::Pred(std::rc::Rc::new(rule))
}

#[test]
fn point_rule_with_a_predicate() {
    let rule = at_most(500);
    assert!(rule.check(500));
    assert!(!rule.check(501));
    assert_eq!(rule.show_issue(), "The flag must pass a predicate: `at most 500`\n");
    assert_eq!(rule.to_text(), "Predicate< unknown >");
    assert!(rule.equals(&rule.clone()));
    assert!(!rule.equals(&at_most(500)));
    let rules = YamlCorrectness::default_rules().with_pnts(at_most(40));
    assert!(rules.check_pnts(40));
    assert!(!rules.check_pnts(50));
    match verify_yaml(GOOD_YAML, Some(YamlCorrectness::default_rules().with_pnts(at_most(1)))) {
        Err(YamlVerifyError::Correctness(broken)) => {
            assert_eq!(broken.show_issue(), "\n    The flag must pass a predicate: `at most 1`\n");
        },
        Err(e) => panic!("expected a correctness failure, got {}", e.message()),
        Ok(_) => panic!("expected a correctness failure"),
    }
}
