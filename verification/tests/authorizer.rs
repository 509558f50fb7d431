use iot_gateway::decode::{decode_request, DecodeError};
use iot_gateway::json::JsonValue;
use iot_gateway::policy::{auth_response_to_json, authorize, build_auth_response};

fn field(key: &str, value: JsonValue) -> (String, JsonValue) {
    (key.to_string(), value)
}

fn text(s: &str) -> JsonValue {
    JsonValue::Text(s.to_string())
}

fn well_formed_event(signature_verified: bool) -> JsonValue {
    JsonValue::Object(vec![
        field("token", text("aToken")),
        field("signatureVerified", JsonValue::Boolean(signature_verified)),
        field("protocols", JsonValue::Array(vec![text("mqtt")])),
        field("protocolData", JsonValue::Null),
        field("connectionMetadata", JsonValue::Object(vec![field("id", text("abc123"))])),
    ])
}

#[test]
fn decode_accepts_well_formed_event() {
    let req = decode_request(well_formed_event(true)).unwrap();
    assert_eq!(req.token, "aToken");
    assert!(req.signature_verified);
    assert_eq!(req.protocols, vec!["mqtt".to_string()]);
    assert_eq!(req.protocol_data, JsonValue::Null);
    assert_eq!(req.connection_metadata, vec![field("id", text("abc123"))]);
}

#[test]
fn decode_rejects_non_object() {
    assert_eq!(decode_request(JsonValue::Null), Err(DecodeError::NotAnObject));
    assert_eq!(decode_request(text("{}")), Err(DecodeError::NotAnObject));
}

#[test]
fn decode_rejects_missing_protocols() {
    let event = JsonValue::Object(vec![
        field("token", text("aToken")),
        field("signatureVerified", JsonValue::Boolean(true)),
        field("protocolData", JsonValue::Null),
        field("connectionMetadata", JsonValue::Object(Vec::new())),
    ]);
    assert_eq!(decode_request(event), Err(DecodeError::BadProtocols));
}

#[test]
fn decode_rejects_non_object_metadata() {
    let event = JsonValue::Object(vec![
        field("token", text("aToken")),
        field("signatureVerified", JsonValue::Boolean(true)),
        field("protocols", JsonValue::Array(vec![text("mqtt")])),
        field("protocolData", JsonValue::Null),
        field("connectionMetadata", text("not an object")),
    ]);
    assert_eq!(decode_request(event), Err(DecodeError::BadConnectionMetadata));
}

#[test]
fn decode_rejects_non_string_protocol_entry() {
    let event = JsonValue::Object(vec![
        field("token", text("aToken")),
        field("signatureVerified", JsonValue::Boolean(true)),
        field("protocols", JsonValue::Array(vec![text("mqtt"), JsonValue::Integer(7)])),
        field("protocolData", JsonValue::Null),
        field("connectionMetadata", JsonValue::Object(Vec::new())),
    ]);
    assert_eq!(decode_request(event), Err(DecodeError::BadProtocols));
}

#[test]
fn decode_rejects_bad_token_first() {
    let event = JsonValue::Object(vec![field("signatureVerified", JsonValue::Boolean(true))]);
    assert_eq!(decode_request(event), Err(DecodeError::BadToken));
}

#[test]
fn decode_rejects_missing_protocol_data() {
    let event = JsonValue::Object(vec![
        field("token", text("aToken")),
        field("signatureVerified", JsonValue::Boolean(true)),
        field("protocols", JsonValue::Array(Vec::new())),
        field("connectionMetadata", JsonValue::Object(Vec::new())),
    ]);
    assert_eq!(decode_request(event), Err(DecodeError::MissingProtocolData));
}

#[test]
fn decode_rejects_non_boolean_signature() {
    let event = JsonValue::Object(vec![
        field("token", text("aToken")),
        field("signatureVerified", text("true")),
        field("protocols", JsonValue::Array(Vec::new())),
        field("protocolData", JsonValue::Null),
        field("connectionMetadata", JsonValue::Object(Vec::new())),
    ]);
    assert_eq!(decode_request(event), Err(DecodeError::BadSignatureVerified));
}

fn assert_stub_response(resp: &iot_gateway::policy::AuthorizationResponse) {
    assert!(resp.is_authenticated);
    assert_eq!(resp.principal_id, "xxxxx");
    assert_eq!(resp.disconnect_after_in_seconds, 86400);
    assert_eq!(resp.refresh_after_in_seconds, 300);
    match &resp.policy_documents {
        JsonValue::Array(docs) => {
            assert_eq!(docs.len(), 1);
            match &docs[0] {
                JsonValue::Object(doc_fields) => {
                    assert_eq!(doc_fields[0].0, "Version");
                    assert_eq!(doc_fields[0].1, text("2012-10-17"));
                    assert_eq!(doc_fields[1].0, "Statement");
                    match &doc_fields[1].1 {
                        JsonValue::Array(stmts) => {
                            assert_eq!(stmts.len(), 1);
                            let expected = JsonValue::Object(vec![
                                field("Action", text("iot:Publish")),
                                field("Effect", text("Allow")),
                                field(
                                    "Resource",
                                    text(
                                        "arn:aws:iot:us-east-1:<your_aws_account_id>:topic/customauthtesting",
                                    ),
                                ),
                            ]);
                            assert_eq!(stmts[0], expected);
                        }
                        other => panic!("Statement is not an array: {:?}", other),
                    }
                }
                other => panic!("document is not an object: {:?}", other),
            }
        }
        other => panic!("policyDocuments is not an array: {:?}", other),
    }
}

#[test]
fn authorizer_allows_with_signature_verified() {
    let resp = authorize(well_formed_event(true)).unwrap();
    assert_stub_response(&resp);
}

#[test]
fn authorizer_allows_without_signature_verified() {
    let resp = authorize(well_formed_event(false)).unwrap();
    assert_stub_response(&resp);
}

#[test]
fn authorizer_rejects_malformed_event() {
    let event = JsonValue::Object(vec![field("token", text("aToken"))]);
    assert_eq!(authorize(event).err().unwrap(), DecodeError::BadSignatureVerified);
}

#[test]
fn auth_response_serializes_in_platform_order() {
    let json = auth_response_to_json(build_auth_response());
    match json {
        JsonValue::Object(fields) => {
            assert_eq!(fields.len(), 5);
            assert_eq!(fields[0], field("isAuthenticated", JsonValue::Boolean(true)));
            assert_eq!(fields[1], field("principalId", text("xxxxx")));
            assert_eq!(fields[2], field("disconnectAfterInSeconds", JsonValue::Integer(86400)));
            assert_eq!(fields[3], field("refreshAfterInSeconds", JsonValue::Integer(300)));
            assert_eq!(fields[4].0, "policyDocuments");
        }
        other => panic!("response is not an object: {:?}", other),
    }
}
