use aascheck::check::{check, check_with, shape, CheckOptions};
use aascheck::embedded_data_specification::EmbeddedDataSpecification;
use aascheck::error::AASCheckError;
use aascheck::json::{envelope, read_document};
use aascheck::mode::Mode;
use aascheck::schema::{compile_schema, validate, CompiledSchema};

const ENVIRONMENT_SCHEMA: &str = r##"{
  "type": "object",
  "required": ["assetAdministrationShells", "submodels", "conceptDescriptions"],
  "properties": {
    "assetAdministrationShells": {"type": "array"},
    "submodels": {"type": "array", "items": {"$ref": "#/$defs/Submodel"}},
    "conceptDescriptions": {"type": "array"}
  },
  "$defs": {
    "Submodel": {
      "type": "object",
      "required": ["id", "modelType"],
      "properties": {
        "id": {"type": "string", "minLength": 1},
        "idShort": {"type": "string", "pattern": "^[a-zA-Z][a-zA-Z0-9_]*$"},
        "modelType": {"const": "Submodel"}
      }
    }
  }
}"##;

fn schema() -> CompiledSchema {
    compile_schema(ENVIRONMENT_SCHEMA).expect("the test schema compiles")
}

fn value(text: &str) -> serde_json::Value {
    read_document(text).expect("the test document is JSON")
}

fn outcome(r: &Result<(), AASCheckError>) -> Option<(String, String)> {
    match r {
        Ok(()) => None,
        Err(AASCheckError::ValidationFailed(v)) => Some((v.path.clone(), v.rule.clone())),
        Err(e) => Some((String::from("error"), e.message())),
    }
}

#[test]
fn mode_names_ignore_case() {
    assert!(matches!(Mode::parse("AAS"), Ok(Mode::AAS)));
    assert!(matches!(Mode::parse("aas"), Ok(Mode::AAS)));
    assert!(matches!(Mode::parse("aAs"), Ok(Mode::AAS)));
    assert!(matches!(Mode::parse("Submodel"), Ok(Mode::Submodel)));
    assert!(matches!(Mode::parse("SUBMODEL"), Ok(Mode::Submodel)));
    assert!(matches!("SubModel".parse::<Mode>(), Ok(Mode::Submodel)));
}

#[test]
fn unknown_mode_is_an_input_error() {
    match Mode::parse("foo") {
        Err(AASCheckError::InvalidMode(s)) => assert_eq!(s, "foo"),
        other => panic!("unexpected {:?}", other),
    }
    match Mode::parse("FOO") {
        Err(e) => assert_eq!(e.message(), "FOO"),
        other => panic!("unexpected {:?}", other),
    }
    assert!(matches!(Mode::parse(""), Err(AASCheckError::InvalidMode(_))));
    assert!(matches!(Mode::parse("aas "), Err(AASCheckError::InvalidMode(_))));
}

#[test]
fn selection_from_lowered_name_is_exact() {
    assert!(matches!(Mode::from_lowered("aas", "AAS"), Ok(Mode::AAS)));
    assert!(matches!(Mode::from_lowered("submodel", "x"), Ok(Mode::Submodel)));
    match Mode::from_lowered("AAS", "given") {
        Err(AASCheckError::InvalidMode(s)) => assert_eq!(s, "given"),
        other => panic!("unexpected {:?}", other),
    }
}

#[test]
fn kind_names() {
    assert_eq!(Mode::AAS.kind_name(), "Asset Administration Shell");
    assert_eq!(Mode::Submodel.kind_name(), "Submodel of an Asset Administration Shell");
}

#[test]
fn minimal_environment_is_valid() {
    let doc = value(r#"{"assetAdministrationShells": [], "submodels": [], "conceptDescriptions": []}"#);
    assert!(check(&schema(), doc, Mode::AAS).is_ok());
}

#[test]
fn submodel_without_id_fails_on_required() {
    let doc = value(r#"{"modelType": "Submodel", "idShort": "Nameplate"}"#);
    match check(&schema(), doc, Mode::Submodel) {
        Err(AASCheckError::ValidationFailed(v)) => {
            assert_eq!(v.rule, "required");
            assert_eq!(v.path, "/submodels/0");
            assert!(v.message.contains("\"id\""));
        }
        other => panic!("unexpected {:?}", other),
    }
}

#[test]
fn environment_without_required_collection_fails() {
    let doc = value(r#"{"assetAdministrationShells": [], "conceptDescriptions": []}"#);
    match check(&schema(), doc, Mode::AAS) {
        Err(AASCheckError::ValidationFailed(v)) => {
            assert_eq!(v.rule, "required");
            assert_eq!(v.path, "");
            assert!(v.message.contains("submodels"));
        }
        other => panic!("unexpected {:?}", other),
    }
}

#[test]
fn valid_regardless_of_key_order() {
    let s = schema();
    let a = value(r#"{"id": "urn:x", "modelType": "Submodel", "idShort": "A1"}"#);
    let b = value(r#"{"idShort": "A1", "modelType": "Submodel", "id": "urn:x"}"#);
    assert!(check(&s, a, Mode::Submodel).is_ok());
    assert!(check(&s, b, Mode::Submodel).is_ok());
    let env = value(r#"{"conceptDescriptions": [], "submodels": [{"modelType": "Submodel", "id": "u"}], "assetAdministrationShells": []}"#);
    assert!(check(&s, env, Mode::AAS).is_ok());
}

#[test]
fn submodel_mode_matches_enveloped_environment() {
    let s = schema();
    let submodels = [
        r#"{"id": "urn:x", "modelType": "Submodel"}"#,
        r#"{"modelType": "Submodel"}"#,
        r#"{"id": 5, "modelType": "Submodel"}"#,
        r#"{"id": "urn:x", "modelType": "Property"}"#,
        r#"[1, 2]"#,
        r#"null"#,
    ];
    for text in submodels {
        let alone = check(&s, value(text), Mode::Submodel);
        let wrapped = format!(
            r#"{{"assetAdministrationShells": [], "submodels": [{}], "conceptDescriptions": []}}"#,
            text
        );
        let whole = check(&s, value(&wrapped), Mode::AAS);
        assert_eq!(outcome(&alone), outcome(&whole), "{}", text);
    }
}

#[test]
fn checking_twice_gives_the_same_outcome() {
    let s = schema();
    for text in [r#"{"id": "", "modelType": "Submodel"}"#, r#"{"id": "a", "modelType": "Submodel"}"#] {
        let first = check(&s, value(text), Mode::Submodel);
        let second = check(&s, value(text), Mode::Submodel);
        assert_eq!(outcome(&first), outcome(&second));
    }
}

#[test]
fn wrong_type_reports_the_property_path() {
    let doc = value(r#"{"id": 5, "modelType": "Submodel"}"#);
    match check(&schema(), doc, Mode::Submodel) {
        Err(AASCheckError::ValidationFailed(v)) => {
            assert_eq!(v.rule, "type");
            assert_eq!(v.path, "/submodels/0/id");
        }
        other => panic!("unexpected {:?}", other),
    }
}

#[test]
fn const_and_pattern_violations() {
    let s = schema();
    let doc = value(r#"{"id": "u", "modelType": "Property"}"#);
    assert_eq!(outcome(&check(&s, doc, Mode::Submodel)), Some((String::from("/submodels/0/modelType"), String::from("const"))));
    let doc = value(r#"{"id": "u", "modelType": "Submodel", "idShort": "1abc"}"#);
    assert_eq!(outcome(&check(&s, doc, Mode::Submodel)), Some((String::from("/submodels/0/idShort"), String::from("pattern"))));
    let doc = value(r#"{"id": "", "modelType": "Submodel"}"#);
    assert_eq!(outcome(&check(&s, doc, Mode::Submodel)), Some((String::from("/submodels/0/id"), String::from("minLength"))));
}

#[test]
fn malformed_document_is_an_input_error() {
    match read_document("{\"submodels\": [") {
        Err(AASCheckError::MalformedJson(m)) => assert!(!m.is_empty()),
        other => panic!("unexpected {:?}", other),
    }
    assert!(matches!(read_document(""), Err(AASCheckError::MalformedJson(_))));
}

#[test]
fn broken_schema_is_refused() {
    assert!(matches!(compile_schema("{\"type\": 5}"), Err(AASCheckError::InvalidSchema(_))));
    assert!(matches!(compile_schema("{"), Err(AASCheckError::MalformedJson(_))));
}

#[test]
fn envelope_text_wraps_the_submodel() {
    let env = envelope(value(r#"{"id":"a"}"#));
    assert_eq!(
        env.to_string(),
        "{\"assetAdministrationShells\":[],\"conceptDescriptions\":[],\"submodels\":[{\"id\":\"a\"}]}"
    );
}

#[test]
fn envelope_holds_the_submodel() {
    let sub = value(r#"{"id": "a", "kind": [1, 2.5, null, true]}"#);
    let env = envelope(sub.clone());
    let expected: serde_json::Value = serde_json::from_str(
        r#"{"assetAdministrationShells": [], "submodels": [{"id": "a", "kind": [1, 2.5, null, true]}], "conceptDescriptions": []}"#,
    )
    .unwrap();
    assert_eq!(env, expected);
    let same = shape(sub.clone(), Mode::AAS);
    assert_eq!(same, sub);
    let wrapped = shape(sub, Mode::Submodel);
    assert_eq!(wrapped, expected);
}

#[test]
fn deeply_nested_submodel_still_gets_a_verdict() {
    let depth = 127;
    let text = format!("{}{}", "[".repeat(depth), "]".repeat(depth));
    let doc = value(&text);
    let wrapped = shape(doc.clone(), Mode::Submodel);
    assert_eq!(wrapped["submodels"][0], doc);
    match check(&schema(), doc, Mode::Submodel) {
        Err(AASCheckError::ValidationFailed(v)) => {
            assert_eq!(v.rule, "type");
            assert_eq!(v.path, "/submodels/0");
        }
        other => panic!("unexpected {:?}", other),
    }
}

#[test]
fn validate_reports_the_first_violation() {
    let s = schema();
    assert!(validate(&s, &value(r#"{"assetAdministrationShells": [], "submodels": [], "conceptDescriptions": []}"#)).is_ok());
    match validate(&s, &value("[]")) {
        Err(e) => {
            assert!(matches!(e, AASCheckError::ValidationFailed(_)));
            assert!(!e.message().is_empty());
        }
        Ok(()) => panic!("an array is no environment"),
    }
}

#[test]
fn embedded_data_specification_has_no_fields() {
    let a = EmbeddedDataSpecification::default();
    assert_eq!(a, a.clone());
}

#[test]
fn first_only_report_holds_at_most_one_violation() {
    let s = schema();
    let doc = value(r#"{"id": 5, "modelType": "Property"}"#);
    let report = check_with(&s, doc, Mode::Submodel, CheckOptions { collect_all: false });
    assert_eq!(report.len(), 1);
    let first = check(&s, value(r#"{"id": 5, "modelType": "Property"}"#), Mode::Submodel);
    assert_eq!(outcome(&first), Some((report[0].path.clone(), report[0].rule.clone())));
    let ok = value(r#"{"id": "u", "modelType": "Submodel"}"#);
    assert!(check_with(&s, ok, Mode::Submodel, CheckOptions::default()).is_empty());
}

#[test]
fn collect_all_reports_every_violation() {
    let s = schema();
    let doc = value(r#"{"id": 5, "modelType": "Property"}"#);
    let report = check_with(&s, doc, Mode::Submodel, CheckOptions { collect_all: true });
    assert_eq!(report.len(), 2);
    let mut rules: Vec<String> = report.iter().map(|v| v.rule.clone()).collect();
    rules.sort();
    assert_eq!(rules, vec![String::from("const"), String::from("type")]);
    let ok = value(r#"{"assetAdministrationShells": [], "submodels": [], "conceptDescriptions": []}"#);
    assert!(check_with(&s, ok, Mode::AAS, CheckOptions { collect_all: true }).is_empty());
}
