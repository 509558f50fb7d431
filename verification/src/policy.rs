//! The policy responder: the authorizer's fixed authorization decision.
//!
//! The decision is a stub: it authenticates every well-formed request,
//! whatever the token or the signature flag say, with a fixed principal,
//! fixed session lifetimes and one fixed allow statement. That is the
//! current behaviour on purpose; it is not a credential check.

use vstd::prelude::*;
use crate::decode::{decode_error_of, decode_request, request_well_formed, DecodeError};
use crate::json::JsonValue;

verus! {

/// Seconds until the gateway closes an authorized connection.
pub const DISCONNECT_AFTER_SECONDS: u32 = 86400;

/// Seconds until the gateway rechecks an authorized connection.
pub const REFRESH_AFTER_SECONDS: u32 = 300;

/// The authorizer's answer to the platform.
#[derive(Debug)]
pub struct AuthorizationResponse {
    pub is_authenticated: bool,
    pub principal_id: String,
    pub disconnect_after_in_seconds: u32,
    pub refresh_after_in_seconds: u32,
    pub policy_documents: JsonValue,
}

/// The one statement the fixed policy grants: allow one publish action on
/// one hardcoded resource.
pub open spec fn is_allow_statement(v: JsonValue) -> bool {
    &&& v matches JsonValue::Object(fields)
    &&& fields@.len() == 3
    &&& fields@[0].0@ == "Action"@
    &&& (fields@[0].1 matches JsonValue::Text(a) && a@ == "iot:Publish"@)
    &&& fields@[1].0@ == "Effect"@
    &&& (fields@[1].1 matches JsonValue::Text(e) && e@ == "Allow"@)
    &&& fields@[2].0@ == "Resource"@
    &&& (fields@[2].1 matches JsonValue::Text(r)
        && r@ == "arn:aws:iot:us-east-1:<your_aws_account_id>:topic/customauthtesting"@)
}

/// One IAM-style document holding exactly the one allow statement.
pub open spec fn is_fixed_policy_document(v: JsonValue) -> bool {
    &&& v matches JsonValue::Object(fields)
    &&& fields@.len() == 2
    &&& fields@[0].0@ == "Version"@
    &&& (fields@[0].1 matches JsonValue::Text(ver) && ver@ == "2012-10-17"@)
    &&& fields@[1].0@ == "Statement"@
    &&& (fields@[1].1 matches JsonValue::Array(stmts) && stmts@.len() == 1
        && is_allow_statement(stmts@[0]))
}

/// The fixed policy document list: exactly one document.
pub open spec fn is_fixed_policy_documents(v: JsonValue) -> bool {
    &&& v matches JsonValue::Array(docs)
    &&& docs@.len() == 1
    &&& is_fixed_policy_document(docs@[0])
}

/// The response every authorized request gets: authenticated, the fixed
/// principal, the fixed lifetimes, the fixed policy documents.
pub open spec fn is_stub_response(resp: AuthorizationResponse) -> bool {
    &&& resp.is_authenticated == true
    &&& resp.principal_id@ == "xxxxx"@
    &&& resp.disconnect_after_in_seconds == DISCONNECT_AFTER_SECONDS
    &&& resp.refresh_after_in_seconds == REFRESH_AFTER_SECONDS
    &&& is_fixed_policy_documents(resp.policy_documents)
}

/// Build the fixed policy document list.
pub fn build_policy_documents() -> (r: JsonValue)
    ensures
        is_fixed_policy_documents(r),
{
    let statement = JsonValue::Object(
        vec![
            ("Action".to_owned(), JsonValue::Text("iot:Publish".to_owned())),
            ("Effect".to_owned(), JsonValue::Text("Allow".to_owned())),
            (
                "Resource".to_owned(),
                JsonValue::Text(
                    "arn:aws:iot:us-east-1:<your_aws_account_id>:topic/customauthtesting".to_owned(),
                ),
            ),
        ],
    );
    let document = JsonValue::Object(
        vec![
            ("Version".to_owned(), JsonValue::Text("2012-10-17".to_owned())),
            ("Statement".to_owned(), JsonValue::Array(vec![statement])),
        ],
    );
    JsonValue::Array(vec![document])
}

/// Build the stub authorization decision.
pub fn build_auth_response() -> (r: AuthorizationResponse)
    ensures
        is_stub_response(r),
{
    AuthorizationResponse {
        is_authenticated: true,
        principal_id: "xxxxx".to_owned(),
        disconnect_after_in_seconds: DISCONNECT_AFTER_SECONDS,
        refresh_after_in_seconds: REFRESH_AFTER_SECONDS,
        policy_documents: build_policy_documents(),
    }
}

/// Handle one authorizer event: decode it, and answer every well-formed
/// request with the stub decision. The signature flag and the token are
/// decoded but never influence the outcome.
pub fn authorize(event: JsonValue) -> (r: Result<AuthorizationResponse, DecodeError>)
    ensures
        r is Ok <==> request_well_formed(event),
        r matches Err(e) ==> e == decode_error_of(event),
        r matches Ok(resp) ==> is_stub_response(resp),
{
    let _request = match decode_request(event) {
        Ok(req) => req,
        Err(e) => {
            return Err(e);
        },
    };
    Ok(build_auth_response())
}

/// The JSON shape of an authorization response, field for field in the
/// order the platform expects.
pub open spec fn is_auth_response_json(v: JsonValue, resp: AuthorizationResponse) -> bool {
    &&& v matches JsonValue::Object(fields)
    &&& fields@.len() == 5
    &&& fields@[0].0@ == "isAuthenticated"@
    &&& fields@[0].1 == JsonValue::Boolean(resp.is_authenticated)
    &&& fields@[1].0@ == "principalId"@
    &&& fields@[1].1 == JsonValue::Text(resp.principal_id)
    &&& fields@[2].0@ == "disconnectAfterInSeconds"@
    &&& fields@[2].1 == JsonValue::Integer(resp.disconnect_after_in_seconds as i64)
    &&& fields@[3].0@ == "refreshAfterInSeconds"@
    &&& fields@[3].1 == JsonValue::Integer(resp.refresh_after_in_seconds as i64)
    &&& fields@[4].0@ == "policyDocuments"@
    &&& fields@[4].1 == resp.policy_documents
}

/// Turn an authorization response into the JSON value the platform
/// serializes.
pub fn auth_response_to_json(resp: AuthorizationResponse) -> (r: JsonValue)
    ensures
        is_auth_response_json(r, resp),
{
    let AuthorizationResponse {
        is_authenticated,
        principal_id,
        disconnect_after_in_seconds,
        refresh_after_in_seconds,
        policy_documents,
    } = resp;
    JsonValue::Object(
        vec![
            ("isAuthenticated".to_owned(), JsonValue::Boolean(is_authenticated)),
            ("principalId".to_owned(), JsonValue::Text(principal_id)),
            (
                "disconnectAfterInSeconds".to_owned(),
                JsonValue::Integer(disconnect_after_in_seconds as i64),
            ),
            (
                "refreshAfterInSeconds".to_owned(),
                JsonValue::Integer(refresh_after_in_seconds as i64),
            ),
            ("policyDocuments".to_owned(), policy_documents),
        ],
    )
}

} // verus!
