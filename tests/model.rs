use kai_rs::api::APIVersion;
use kai_rs::{ClientError, Model};

#[test]
fn parse_hosted_round_trip() {
    let m = Model::parse("PygmalionAI/pygmalion-6b").unwrap();
    assert_eq!(m, Model::HuggingFace("PygmalionAI".to_string(), "pygmalion-6b".to_string()));
    assert_eq!(m.to_string(), "PygmalionAI/pygmalion-6b");
}

#[test]
fn parse_splits_on_first_slash() {
    let m = Model::parse("owner/name/rest").unwrap();
    assert_eq!(m, Model::HuggingFace("owner".to_string(), "name/rest".to_string()));
    assert_eq!(m.to_string(), "owner/name/rest");
}

#[test]
fn parse_local_strips_prefix() {
    let m = Model::parse("./models/my-model").unwrap();
    assert_eq!(m, Model::Local("models/my-model".to_string()));
    assert_eq!(m.to_string(), "models/my-model");
}

#[test]
fn parse_local_empty_path() {
    assert_eq!(Model::parse("./").unwrap(), Model::Local(String::new()));
}

#[test]
fn parse_without_separator_fails() {
    assert_eq!(Model::parse("onlyonename"), Err(ClientError::InvalidModelIdentifier));
    assert_eq!(Model::parse(""), Err(ClientError::InvalidModelIdentifier));
}

#[test]
fn parse_empty_owner_or_name_fails() {
    assert_eq!(Model::parse("/name"), Err(ClientError::InvalidModelIdentifier));
    assert_eq!(Model::parse("owner/"), Err(ClientError::InvalidModelIdentifier));
}

#[test]
fn parse_dot_owner_is_local() {
    assert_eq!(Model::parse("./x").unwrap(), Model::Local("x".to_string()));
}

#[test]
fn parse_non_ascii() {
    let m = Model::parse("ünï/çødé").unwrap();
    assert_eq!(m, Model::HuggingFace("ünï".to_string(), "çødé".to_string()));
    assert_eq!(m.to_string(), "ünï/çødé");
}

#[test]
fn api_version_fragment() {
    assert_eq!(APIVersion::V1.to_string(), "v1");
}
