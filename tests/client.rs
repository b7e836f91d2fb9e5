use kai_rs::api::v1::{WireField, WireValue};
use kai_rs::api::APIVersion;
use kai_rs::client::{
    base_url, decimal_string, join_layers, load_model_outcome, load_model_payload,
    model_from_reply, version_from_reply,
};
use kai_rs::response::Json;
use kai_rs::{ClientError, Model};

fn reply(result: Json) -> Json {
    Json::Object(vec![("result".to_string(), result)])
}

fn text(t: &str) -> Json {
    Json::Str(t.to_string())
}

#[test]
fn model_reply_read_only_is_absent() {
    assert_eq!(model_from_reply(&reply(text("ReadOnly"))), Ok(None));
}

#[test]
fn model_reply_hosted() {
    assert_eq!(
        model_from_reply(&reply(text("foo/bar"))),
        Ok(Some(Model::HuggingFace("foo".to_string(), "bar".to_string())))
    );
    assert_eq!(
        model_from_reply(&reply(text("./local"))),
        Ok(Some(Model::Local("local".to_string())))
    );
}

#[test]
fn model_reply_errors() {
    assert_eq!(model_from_reply(&reply(text("noslash"))), Err(ClientError::InvalidModelIdentifier));
    assert_eq!(model_from_reply(&Json::Object(vec![])), Err(ClientError::ProtocolError));
    assert_eq!(model_from_reply(&reply(Json::Null)), Err(ClientError::ProtocolError));
}

#[test]
fn version_reply() {
    assert_eq!(version_from_reply(&reply(text("1.2.4"))), Ok("1.2.4".to_string()));
    let number = Json::Number("1".to_string());
    assert_eq!(version_from_reply(&reply(number)), Err(ClientError::ProtocolError));
    assert_eq!(version_from_reply(&Json::Null), Err(ClientError::ProtocolError));
}

#[test]
fn load_model_failure_status() {
    assert_eq!(load_model_outcome(500), Err(ClientError::RequestFailed { status: 500 }));
    assert_eq!(load_model_outcome(404), Err(ClientError::RequestFailed { status: 404 }));
    assert_eq!(load_model_outcome(300), Err(ClientError::RequestFailed { status: 300 }));
    assert_eq!(load_model_outcome(199), Err(ClientError::RequestFailed { status: 199 }));
}

#[test]
fn load_model_success_status() {
    assert_eq!(load_model_outcome(200), Ok(()));
    assert_eq!(load_model_outcome(299), Ok(()));
}

#[test]
fn load_model_payload_fields() {
    let m = Model::parse("PygmalionAI/pygmalion-6b").unwrap();
    let p = load_model_payload(&m, &vec![28, 0, 105]);
    assert_eq!(
        p,
        vec![
            WireField {
                key: "model".to_string(),
                value: WireValue::Text("PygmalionAI/pygmalion-6b".to_string())
            },
            WireField { key: "gpu_layers".to_string(), value: WireValue::Text("28,0,105".to_string()) },
        ]
    );
}

#[test]
fn decimal_rendering() {
    assert_eq!(decimal_string(0), "0");
    assert_eq!(decimal_string(7), "7");
    assert_eq!(decimal_string(10), "10");
    assert_eq!(decimal_string(4294967295), "4294967295");
    assert_eq!(join_layers(&vec![]), "");
    assert_eq!(join_layers(&vec![28]), "28");
    assert_eq!(join_layers(&vec![1, 20, 300]), "1,20,300");
}

#[test]
fn base_url_has_version() {
    assert_eq!(base_url("http://localhost:5000", APIVersion::V1), "http://localhost:5000/api/v1");
}
