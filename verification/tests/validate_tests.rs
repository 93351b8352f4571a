use charms_prover_client::{validate_spell, CharmsService, ValidationError};

#[test]
fn accepts_minimal_document() {
    assert!(validate_spell("version: 8\nstate: []\nclauses: []").is_ok());
}

#[test]
fn accepts_minimal_flow_document() {
    assert!(validate_spell("{version: 8, state: [], clauses: []}").is_ok());
}

#[test]
fn rejects_document_without_version() {
    let err = validate_spell("state: []\nclauses: []").unwrap_err();
    match err {
        ValidationError::MissingField(name) => assert_eq!(name, "version"),
        ValidationError::MalformedDocument(_) => panic!("expected a missing field"),
    }
}

#[test]
fn rejects_non_structured_text() {
    let err = validate_spell("this is not valid").unwrap_err();
    assert!(matches!(err, ValidationError::MalformedDocument(_)));
}

#[test]
fn rejects_unparseable_text() {
    let err = validate_spell("a: [unclosed").unwrap_err();
    assert!(matches!(err, ValidationError::MalformedDocument(_)));
}

#[test]
fn service_validates_like_the_free_function() {
    let service = CharmsService::new("http://localhost".to_string(), true);
    assert!(service.validate_spell("version: 8").is_ok());
    assert!(service.validate_spell("this is not valid").is_err());
}
