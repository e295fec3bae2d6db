use fortuna::scripts::scripts_from_member;
use fortuna::scripts::tuna_validators;
use fortuna::scripts::ScriptError;

#[test]
fn validator_is_read_from_the_bundle() {
    let bundle = "{\"validator\": \"590f86590f83\", \"validatorHash\": \"279f\"}";
    assert_eq!(
        tuna_validators(bundle),
        Ok(("590f86590f83".to_string(), "590f86590f83".to_string()))
    );
}

#[test]
fn bundle_without_validator_is_rejected() {
    let missing = Err(ScriptError::FailedToConstruct(
        "validator not found".to_string(),
    ));
    assert_eq!(tuna_validators("{\"validatorHash\": \"279f\"}"), missing);
    assert_eq!(tuna_validators("{\"validator\": 17}"), missing);
    assert_eq!(tuna_validators("[\"validator\"]"), missing);
    assert_eq!(tuna_validators("\"validator\""), missing);
}

#[test]
fn malformed_bundle_is_rejected_with_the_parsers_message() {
    let outcome = tuna_validators("{\"validator\": ");
    assert!(matches!(
        &outcome,
        Err(ScriptError::FailedToConstruct(message))
            if !message.is_empty() && message != "validator not found"
    ));
    assert!(tuna_validators("").is_err());
    assert!(tuna_validators("{} {}").is_err());
}

#[test]
fn scripts_from_member_copies_the_validator() {
    assert_eq!(
        scripts_from_member(Some("4e4d01".to_string())),
        Ok(("4e4d01".to_string(), "4e4d01".to_string()))
    );
    assert_eq!(
        scripts_from_member(None),
        Err(ScriptError::FailedToConstruct(
            "validator not found".to_string()
        ))
    );
}
