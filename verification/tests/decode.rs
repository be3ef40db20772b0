use backend::claims::{decode_introspection_result, project_roles_key, DecodeError, Field, TokenInfo};
use serde_json::Value;
use std::collections::HashSet;

fn json(text: &str) -> Value {
    serde_json::from_str(text).unwrap()
}

fn decode(text: &str, project_id: &str) -> Result<TokenInfo, DecodeError> {
    decode_introspection_result(&json(text), &project_id.to_string())
}

fn role_set(info: &TokenInfo) -> HashSet<String> {
    let set: HashSet<String> = info.roles.iter().cloned().collect();
    assert_eq!(set.len(), info.roles.len());
    set
}

fn names(list: &[&str]) -> HashSet<String> {
    list.iter().map(|name| name.to_string()).collect()
}

#[test]
fn decodes_the_provider_sample() {
    let info = decode(
        r#"{"active":true,"exp":1690402698,"sub":"224139274302259204","urn:zitadel:iam:org:project:PID:roles":{"moderator":{"ORG":"x"}}}"#,
        "PID",
    )
    .unwrap();
    assert!(info.active);
    assert_eq!(info.expires_at, 1690402698);
    assert_eq!(info.subject, "224139274302259204");
    assert_eq!(role_set(&info), names(&["moderator"]));
}

#[test]
fn decodes_without_roles_claim() {
    let info = decode(
        r#"{"active":true,"scope":"openid profile","client_id":"220047952645783557@ecommerce1","token_type":"Bearer","exp":1690402698,"iat":1690359498,"sub":"224139274302259204","aud":["a","b"],"locale":null}"#,
        "220047653491179525",
    )
    .unwrap();
    assert_eq!(
        info,
        TokenInfo {
            active: true,
            expires_at: 1690402698,
            subject: "224139274302259204".to_string(),
            roles: vec![],
        }
    );
}

#[test]
fn roles_are_the_key_names_whatever_the_values() {
    let with_maps = decode(
        r#"{"active":true,"exp":7,"sub":"u","urn:zitadel:iam:org:project:p1:roles":{"a":{"o":"x"},"b":{},"c":{"o":"y","p":"z"}}}"#,
        "p1",
    )
    .unwrap();
    let with_scalars = decode(
        r#"{"active":true,"exp":7,"sub":"u","urn:zitadel:iam:org:project:p1:roles":{"c":null,"a":1,"b":[true]}}"#,
        "p1",
    )
    .unwrap();
    assert_eq!(role_set(&with_maps), names(&["a", "b", "c"]));
    assert_eq!(role_set(&with_scalars), names(&["a", "b", "c"]));
}

#[test]
fn roles_come_from_the_configured_project_only() {
    let text = r#"{"active":true,"exp":7,"sub":"u","urn:zitadel:iam:org:project:p1:roles":{"admin":{}},"urn:zitadel:iam:org:project:roles":{"moderator":{}}}"#;
    assert_eq!(role_set(&decode(text, "p1").unwrap()), names(&["admin"]));
    assert_eq!(role_set(&decode(text, "p2").unwrap()), names(&[]));
    assert_eq!(role_set(&decode(text, "").unwrap()), names(&[]));
}

#[test]
fn duplicate_role_keys_collapse() {
    let info = decode(
        r#"{"active":true,"exp":7,"sub":"u","urn:zitadel:iam:org:project:p:roles":{"a":1,"a":2}}"#,
        "p",
    )
    .unwrap();
    assert_eq!(info.roles, vec!["a".to_string()]);
}

#[test]
fn inactive_token_with_all_claims_decodes() {
    let info = decode(r#"{"active":false,"exp":0,"sub":""}"#, "p").unwrap();
    assert!(!info.active);
    assert_eq!(info.expires_at, 0);
    assert_eq!(info.subject, "");
    assert!(info.roles.is_empty());
}

#[test]
fn largest_expiry_decodes() {
    let info = decode(r#"{"active":true,"exp":4294967295,"sub":"u"}"#, "p").unwrap();
    assert_eq!(info.expires_at, u32::MAX);
}

#[test]
fn non_objects_are_rejected() {
    for text in ["null", "true", "12", "-1.5", "\"text\"", "[]", "[{\"active\":true}]"] {
        assert_eq!(decode(text, "p"), Err(DecodeError::NotAnObject), "{}", text);
    }
}

#[test]
fn missing_sub_is_reported() {
    let error = decode(r#"{"active":true,"exp":1690402698}"#, "p").unwrap_err();
    assert_eq!(error, DecodeError::MissingField(Field::Sub));
    assert_eq!(Field::Sub.name(), "sub");
    assert_eq!(error.message(), "Property `sub` not found");
}

#[test]
fn missing_active_and_exp_are_reported_in_order() {
    assert_eq!(decode(r#"{}"#, "p"), Err(DecodeError::MissingField(Field::Active)));
    assert_eq!(decode(r#"{"exp":1}"#, "p"), Err(DecodeError::MissingField(Field::Active)));
    assert_eq!(
        decode(r#"{"active":true,"sub":"u"}"#, "p"),
        Err(DecodeError::MissingField(Field::Exp))
    );
    assert_eq!(
        decode(r#"{"active":false}"#, "p").unwrap_err().message(),
        "Property `exp` not found"
    );
}

#[test]
fn wrongly_typed_active_is_reported() {
    match decode(r#"{"active":"yes","exp":1,"sub":"u"}"#, "p") {
        Err(DecodeError::InvalidFieldType(Field::Active, text)) => {
            assert_eq!(text, "invalid type: string \"yes\", expected a boolean");
        }
        other => panic!("{:?}", other),
    }
}

#[test]
fn wrongly_typed_exp_is_reported() {
    for text in [
        r#"{"active":true,"exp":"1690402698","sub":"u"}"#,
        r#"{"active":true,"exp":-1,"sub":"u"}"#,
        r#"{"active":true,"exp":4294967296,"sub":"u"}"#,
        r#"{"active":true,"exp":1.0,"sub":"u"}"#,
        r#"{"active":true,"exp":null,"sub":"u"}"#,
    ] {
        match decode(text, "p") {
            Err(DecodeError::InvalidFieldType(Field::Exp, _)) => {}
            other => panic!("{} gave {:?}", text, other),
        }
    }
    let error = decode(r#"{"active":true,"exp":4294967296,"sub":"u"}"#, "p").unwrap_err();
    assert_eq!(
        error.message(),
        "TokenInfo has invalid format: invalid value: integer `4294967296`, expected u32"
    );
}

#[test]
fn wrongly_typed_sub_is_reported() {
    match decode(r#"{"active":true,"exp":1,"sub":224139274302259204}"#, "p") {
        Err(DecodeError::InvalidFieldType(Field::Sub, text)) => {
            assert_eq!(text, "invalid type: integer `224139274302259204`, expected a string");
        }
        other => panic!("{:?}", other),
    }
}

#[test]
fn roles_claim_that_is_no_object_is_reported() {
    for text in [
        r#"{"active":true,"exp":1,"sub":"u","urn:zitadel:iam:org:project:p:roles":["admin"]}"#,
        r#"{"active":true,"exp":1,"sub":"u","urn:zitadel:iam:org:project:p:roles":"admin"}"#,
        r#"{"active":true,"exp":1,"sub":"u","urn:zitadel:iam:org:project:p:roles":null}"#,
    ] {
        let error = decode(text, "p").unwrap_err();
        assert_eq!(
            error,
            DecodeError::InvalidFieldType(Field::Roles, "Expected JSON object".to_string())
        );
        assert_eq!(error.message(), "Expected JSON object");
    }
}

#[test]
fn required_claims_are_checked_before_roles() {
    assert_eq!(
        decode(r#"{"active":true,"exp":1,"urn:zitadel:iam:org:project:p:roles":7}"#, "p"),
        Err(DecodeError::MissingField(Field::Sub))
    );
}

#[test]
fn not_an_object_message() {
    assert_eq!(decode("[]", "p").unwrap_err().message(), "Expected JSON object");
}

#[test]
fn role_claim_key_is_built_from_the_project() {
    assert_eq!(
        project_roles_key("220047653491179525"),
        "urn:zitadel:iam:org:project:220047653491179525:roles"
    );
    assert_eq!(project_roles_key(""), "urn:zitadel:iam:org:project::roles");
}

#[test]
fn field_names() {
    assert_eq!(Field::Active.name(), "active");
    assert_eq!(Field::Exp.name(), "exp");
    assert_eq!(Field::Sub.name(), "sub");
    assert_eq!(Field::Roles.name(), "roles");
}
