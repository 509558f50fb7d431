//! The event decoder: turns a platform-delivered value into the typed
//! request record the authorizer works on, or reports exactly why it
//! cannot.

use vstd::prelude::*;
use crate::json::{lookup, JsonValue};

verus! {

/// The typed request the authorizer handles, decoded from the event value.
#[derive(Debug, PartialEq, Eq)]
pub struct AuthorizationRequest {
    pub token: String,
    pub signature_verified: bool,
    pub protocols: Vec<String>,
    pub protocol_data: JsonValue,
    pub connection_metadata: Vec<(String, JsonValue)>,
}

/// Why an event value failed to decode. Fields are checked in the order
/// they are declared here; each variant covers a field that is absent or
/// of the wrong shape.
#[derive(Clone, Copy, Debug, PartialEq, Eq, Structural)]
pub enum DecodeError {
    NotAnObject,
    BadToken,
    BadSignatureVerified,
    BadProtocols,
    MissingProtocolData,
    BadConnectionMetadata,
}

/// Shape checks, one per required field: the first field of that name
/// exists and holds the right kind of value.
pub open spec fn token_ok(fields: Seq<(String, JsonValue)>) -> bool {
    lookup(fields, "token"@) matches Some(v) && v is Text
}

pub open spec fn signature_ok(fields: Seq<(String, JsonValue)>) -> bool {
    lookup(fields, "signatureVerified"@) matches Some(v) && v is Boolean
}

pub open spec fn protocols_ok(fields: Seq<(String, JsonValue)>) -> bool {
    &&& lookup(fields, "protocols"@) matches Some(v)
    &&& v matches JsonValue::Array(items)
    &&& forall|i: int| 0 <= i < items@.len() ==> items@[i] is Text
}

pub open spec fn protocol_data_ok(fields: Seq<(String, JsonValue)>) -> bool {
    lookup(fields, "protocolData"@) is Some
}

pub open spec fn metadata_ok(fields: Seq<(String, JsonValue)>) -> bool {
    lookup(fields, "connectionMetadata"@) matches Some(v) && v is Object
}

/// An event value that decodes to an authorization request: an object whose
/// required fields are all present and of the right shape.
pub open spec fn request_well_formed(event: JsonValue) -> bool {
    &&& event matches JsonValue::Object(fields)
    &&& token_ok(fields@)
    &&& signature_ok(fields@)
    &&& protocols_ok(fields@)
    &&& protocol_data_ok(fields@)
    &&& metadata_ok(fields@)
}

/// The error a malformed event decodes to: the first check that fails, in
/// declaration order.
pub open spec fn decode_error_of(event: JsonValue) -> DecodeError
    recommends
        !request_well_formed(event),
{
    match event {
        JsonValue::Object(fields) => if !token_ok(fields@) {
            DecodeError::BadToken
        } else if !signature_ok(fields@) {
            DecodeError::BadSignatureVerified
        } else if !protocols_ok(fields@) {
            DecodeError::BadProtocols
        } else if !protocol_data_ok(fields@) {
            DecodeError::MissingProtocolData
        } else {
            DecodeError::BadConnectionMetadata
        },
        _ => DecodeError::NotAnObject,
    }
}

/// The value of the first field named `key` of a well-formed event.
pub open spec fn field_of(fields: Seq<(String, JsonValue)>, key: Seq<char>) -> JsonValue
    recommends
        lookup(fields, key) is Some,
{
    match lookup(fields, key) {
        Some(v) => v,
        None => JsonValue::Null,
    }
}

/// `req` holds exactly what the fields of `event` hold: the token and the
/// signature flag as given, the protocol tokens element for element, and
/// the protocol data and connection metadata unchanged.
pub open spec fn decodes_to(event: JsonValue, req: AuthorizationRequest) -> bool {
    &&& event matches JsonValue::Object(fields)
    &&& JsonValue::Text(req.token) == field_of(fields@, "token"@)
    &&& JsonValue::Boolean(req.signature_verified) == field_of(fields@, "signatureVerified"@)
    &&& (field_of(fields@, "protocols"@) matches JsonValue::Array(items)
        && req.protocols@.len() == items@.len()
        && (forall|i: int| 0 <= i < items@.len() ==> JsonValue::Text(req.protocols@[i]) == items@[i]))
    &&& req.protocol_data == field_of(fields@, "protocolData"@)
    &&& JsonValue::Object(req.connection_metadata) == field_of(fields@, "connectionMetadata"@)
}

/// Decode an event value into an authorization request. Succeeds exactly on
/// well-formed events; a malformed event yields the error of the first
/// failing check.
#[verifier::loop_isolation(false)]
pub fn decode_request(event: JsonValue) -> (r: Result<AuthorizationRequest, DecodeError>)
    ensures
        r is Ok <==> request_well_formed(event),
        r matches Err(e) ==> e == decode_error_of(event),
        r matches Ok(req) ==> decodes_to(event, req),
{
    proof {
        reveal_strlit("token");
        reveal_strlit("signatureVerified");
        reveal_strlit("protocols");
        reveal_strlit("protocolData");
        reveal_strlit("connectionMetadata");
        assert("token"@.len() == 5);
        assert("signatureVerified"@.len() == 17);
        assert("protocols"@.len() == 9);
        assert("protocolData"@.len() == 12);
        assert("connectionMetadata"@.len() == 18);
    }
    let mut fields = match event {
        JsonValue::Object(f) => f,
        _ => {
            return Err(DecodeError::NotAnObject);
        },
    };
    let ghost full = fields@;
    let k_token: String = "token".to_owned();
    let k_signature: String = "signatureVerified".to_owned();
    let k_protocols: String = "protocols".to_owned();
    let k_protocol_data: String = "protocolData".to_owned();
    let k_metadata: String = "connectionMetadata".to_owned();

    let mut v_token: Option<JsonValue> = None;
    let mut v_signature: Option<JsonValue> = None;
    let mut v_protocols: Option<JsonValue> = None;
    let mut v_protocol_data: Option<JsonValue> = None;
    let mut v_metadata: Option<JsonValue> = None;

    proof {
        assert(full.skip(full.len() as int) =~= Seq::<(String, JsonValue)>::empty());
    }
    while fields.len() > 0
        invariant
            fields@.len() <= full.len(),
            fields@ == full.subrange(0, fields@.len() as int),
            v_token == lookup(full.skip(fields@.len() as int), "token"@),
            v_signature == lookup(full.skip(fields@.len() as int), "signatureVerified"@),
            v_protocols == lookup(full.skip(fields@.len() as int), "protocols"@),
            v_protocol_data == lookup(full.skip(fields@.len() as int), "protocolData"@),
            v_metadata == lookup(full.skip(fields@.len() as int), "connectionMetadata"@),
            k_token@ == "token"@,
            k_signature@ == "signatureVerified"@,
            k_protocols@ == "protocols"@,
            k_protocol_data@ == "protocolData"@,
            k_metadata@ == "connectionMetadata"@,
            // the loop body is checked without the literal reveals above,
            // so the key disequalities must ride along as invariants
            "token"@ != "signatureVerified"@,
            "token"@ != "protocols"@,
            "token"@ != "protocolData"@,
            "token"@ != "connectionMetadata"@,
            "signatureVerified"@ != "protocols"@,
            "signatureVerified"@ != "protocolData"@,
            "signatureVerified"@ != "connectionMetadata"@,
            "protocols"@ != "protocolData"@,
            "protocols"@ != "connectionMetadata"@,
            "protocolData"@ != "connectionMetadata"@,
        decreases fields@.len(),
    {
        let ghost j = fields@.len() as int;
        proof {
            assert(full.skip(j - 1)[0] == full[j - 1]);
            assert(full.skip(j - 1).drop_first() =~= full.skip(j));
            assert(fields@.last() == full[j - 1]);
        }
        let pair = fields.pop().unwrap();
        proof {
            assert(fields@ =~= full.subrange(0, j - 1));
        }
        let (key, value) = pair;
        if key == k_token {
            v_token = Some(value);
        } else if key == k_signature {
            v_signature = Some(value);
        } else if key == k_protocols {
            v_protocols = Some(value);
        } else if key == k_protocol_data {
            v_protocol_data = Some(value);
        } else if key == k_metadata {
            v_metadata = Some(value);
        }
    }
    proof {
        assert(full.skip(0) =~= full);
    }

    let token = match v_token {
        Some(JsonValue::Text(s)) => s,
        _ => {
            return Err(DecodeError::BadToken);
        },
    };
    let signature_verified = match v_signature {
        Some(JsonValue::Boolean(b)) => b,
        _ => {
            return Err(DecodeError::BadSignatureVerified);
        },
    };
    let raw_protocols = match v_protocols {
        Some(JsonValue::Array(a)) => a,
        _ => {
            return Err(DecodeError::BadProtocols);
        },
    };
    let ghost raw_full = raw_protocols@;
    let mut protocols: Vec<String> = Vec::new();
    let mut i: usize = 0;
    while i < raw_protocols.len()
        invariant
            i <= raw_full.len(),
            raw_protocols@ == raw_full,
            protocols@.len() == i,
            forall|t: int| 0 <= t < i ==> JsonValue::Text(protocols@[t]) == raw_full[t],
            event matches JsonValue::Object(f0) && f0@ == full,
            token_ok(full),
            signature_ok(full),
            lookup(full, "protocols"@) == Some(JsonValue::Array(raw_protocols)),
        decreases raw_full.len() - i,
    {
        match &raw_protocols[i] {
            JsonValue::Text(s) => {
                protocols.push(s.clone());
            },
            _ => {
                return Err(DecodeError::BadProtocols);
            },
        }
        i = i + 1;
    }
    let protocol_data = match v_protocol_data {
        Some(v) => v,
        None => {
            return Err(DecodeError::MissingProtocolData);
        },
    };
    let connection_metadata = match v_metadata {
        Some(JsonValue::Object(m)) => m,
        _ => {
            return Err(DecodeError::BadConnectionMetadata);
        },
    };
    Ok(
        AuthorizationRequest {
            token,
            signature_verified,
            protocols,
            protocol_data,
            connection_metadata,
        },
    )
}

} // verus!
