//! Protocol classification for the pluggable-authentication handshake.
//!
//! A client hands the gateway an ordered sequence of negotiation tokens;
//! the classifier decides which transport stack was requested, or reports
//! that the shape is unknown.

use vstd::prelude::*;

verus! {

/// The closed set of transport variants a client can negotiate.
#[derive(Clone, Copy, Debug, PartialEq, Eq, Structural)]
pub enum ProtocolVariant {
    Https,
    MqttOverTls,
    MqttOverWebsocket,
}

/// Mathematical form of the classification. Splitting a nonempty sequence
/// into `first`, `middle` (strictly between first and last) and `last`:
/// the middle is empty exactly when the sequence has at most two tokens,
/// and has exactly one element exactly when the sequence has three.
pub open spec fn classify(tokens: Seq<Seq<char>>) -> Option<ProtocolVariant> {
    if tokens.len() == 0 {
        None
    } else if tokens.len() <= 2 && tokens.last() == "http"@ {
        Some(ProtocolVariant::Https)
    } else if tokens.len() <= 2 && tokens.last() == "mqtt"@ {
        Some(ProtocolVariant::MqttOverTls)
    } else if tokens.len() == 3 && tokens[1] == "http"@ && tokens.last() == "mqtt"@ {
        Some(ProtocolVariant::MqttOverWebsocket)
    } else {
        None
    }
}

/// The views of a sequence of owned tokens.
pub open spec fn token_views(tokens: Seq<String>) -> Seq<Seq<char>> {
    tokens.map_values(|t: String| t@)
}

/// Decide which transport protocol the given negotiation tokens describe.
pub fn protocal_filter(protocols: Vec<String>) -> (r: Option<ProtocolVariant>)
    ensures
        r == classify(token_views(protocols@)),
{
    let n = protocols.len();
    if n == 0 {
        return None;
    }
    let http: String = "http".to_owned();
    let mqtt: String = "mqtt".to_owned();
    proof {
        assert(token_views(protocols@).last() == protocols@[n - 1]@);
        if n >= 2 {
            assert(token_views(protocols@)[1] == protocols@[1]@);
        }
    }
    let last_is_http = protocols[n - 1] == http;
    let last_is_mqtt = protocols[n - 1] == mqtt;
    if n <= 2 && last_is_http {
        Some(ProtocolVariant::Https)
    } else if n <= 2 && last_is_mqtt {
        Some(ProtocolVariant::MqttOverTls)
    } else if n == 3 && protocols[1] == http && last_is_mqtt {
        Some(ProtocolVariant::MqttOverWebsocket)
    } else {
        None
    }
}

/// Law: a nonempty token sequence with nothing between its first and last
/// element whose last token is `"http"` classifies as HTTPS.
pub proof fn lemma_classify_https(tokens: Seq<Seq<char>>)
    requires
        1 <= tokens.len() <= 2,
        tokens.last() == "http"@,
    ensures
        classify(tokens) == Some(ProtocolVariant::Https),
{
}

/// Law: a nonempty token sequence with nothing between its first and last
/// element whose last token is `"mqtt"` classifies as MQTT over TLS.
pub proof fn lemma_classify_mqtt_tls(tokens: Seq<Seq<char>>)
    requires
        1 <= tokens.len() <= 2,
        tokens.last() == "mqtt"@,
    ensures
        classify(tokens) == Some(ProtocolVariant::MqttOverTls),
{
    reveal_strlit("http");
    reveal_strlit("mqtt");
    assert("http"@[0] != "mqtt"@[0]);
}

/// Law: a three-token sequence whose middle token is `"http"` and whose
/// last token is `"mqtt"` classifies as MQTT over Websocket, whatever its
/// first token is.
pub proof fn lemma_classify_mqtt_websocket(tokens: Seq<Seq<char>>)
    requires
        tokens.len() == 3,
        tokens[1] == "http"@,
        tokens[2] == "mqtt"@,
    ensures
        classify(tokens) == Some(ProtocolVariant::MqttOverWebsocket),
{
    assert(tokens.last() == tokens[2]);
}

/// Law: the empty sequence, and every sequence of none of the three shapes
/// above, classifies as unknown.
pub proof fn lemma_classify_unknown(tokens: Seq<Seq<char>>)
    requires
        !(1 <= tokens.len() <= 2 && tokens.last() == "http"@),
        !(1 <= tokens.len() <= 2 && tokens.last() == "mqtt"@),
        !(tokens.len() == 3 && tokens[1] == "http"@ && tokens[2] == "mqtt"@),
    ensures
        classify(tokens) is None,
{
}

} // verus!
