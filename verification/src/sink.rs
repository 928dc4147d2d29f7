//! The sink capability: one of two interchangeable message-bus backends,
//! chosen once at startup, each addressed through the same publish plan
//! (a destination name, an optional partition key, a payload).

use vstd::prelude::*;
use crate::decode::AdsbMessage;
use crate::json::{payload_model, payload_json};
use crate::numbers::{dec_repr, u32_dec};
use crate::text::str_eq;

verus! {

/// The two backends a record can be published to.
#[derive(Debug, Clone, Copy, PartialEq, Eq)]
pub enum SinkKind {
    Mqtt,
    Kafka,
}

/// Which backend the configuration selects: the bus backend exactly when
/// the configured value is the literal `Kafka`; the broker backend for
/// any other value and, in particular, when the value is absent.
pub fn select_sink(target: Option<&str>) -> (k: SinkKind)
    ensures
        k is Kafka <==> (target matches Some(t) && t@ == "Kafka"@),
        k is Mqtt <==> !(target matches Some(t) && t@ == "Kafka"@),
{
    match target {
        Some(t) => {
            if str_eq(t, "Kafka") {
                SinkKind::Kafka
            } else {
                SinkKind::Mqtt
            }
        },
        None => SinkKind::Mqtt,
    }
}

/// The active sink, with what addressing it needs: the bus backend
/// carries its one externally configured destination name.
#[derive(Debug, PartialEq, Eq)]
pub enum SinkTarget {
    Mqtt,
    Kafka(String),
}

/// One publish, ready for a backend: where to, under which partition
/// key, and what.
#[derive(Debug, PartialEq, Eq)]
pub struct PublishPlan {
    pub destination: String,
    pub key: Option<String>,
    pub payload: String,
}

/// What a backend reports for one publish.
#[derive(Debug, PartialEq, Eq)]
pub enum PublishOutcome {
    Success,
    Failure(String),
}

impl PublishOutcome {
    /// Whether the publish was confirmed.
    pub fn is_success(&self) -> (b: bool)
        ensures
            b == (self is Success),
    {
        match self {
            PublishOutcome::Success => true,
            PublishOutcome::Failure(_) => false,
        }
    }
}

/// The broker topic a record goes to: its identifier and transmission
/// type under the fixed prefix.
pub open spec fn mqtt_topic_model(id: Seq<char>, tt: int) -> Seq<char> {
    "adsb/"@ + id + "/"@ + dec_repr(tt)
}

/// Derive the broker topic for `m`.
pub fn mqtt_topic(m: &AdsbMessage) -> (r: String)
    ensures
        r@ == mqtt_topic_model(m.hex_ident@, m.transmission_type as int),
{
    let mut t = String::from_str("adsb/");
    t.append(m.hex_ident.as_str());
    t.append("/");
    t.append(u32_dec(m.transmission_type as u32).as_str());
    proof {
        assert(t@ =~= mqtt_topic_model(m.hex_ident@, m.transmission_type as int));
    }
    t
}

/// Destination-name derivation is a pure function of the identifier and
/// the transmission type: two records that agree on both always derive
/// the same broker topic.
pub proof fn lemma_mqtt_topic_pure(a: AdsbMessage, b: AdsbMessage)
    requires
        a.hex_ident@ == b.hex_ident@,
        a.transmission_type == b.transmission_type,
    ensures
        mqtt_topic_model(a.hex_ident@, a.transmission_type as int) == mqtt_topic_model(
            b.hex_ident@,
            b.transmission_type as int,
        ),
{
}

/// The destination a record goes to under the given sink: the derived
/// broker topic, or the bus backend's one configured name.
pub open spec fn plan_destination(t: SinkTarget, id: Seq<char>, tt: int) -> Seq<char> {
    match t {
        SinkTarget::Mqtt => mqtt_topic_model(id, tt),
        SinkTarget::Kafka(topic) => topic@,
    }
}

/// The partition key under the given sink: the record's identifier for
/// the bus backend, none for the broker backend.
pub open spec fn plan_key_ok(t: SinkTarget, id: Seq<char>, k: Option<String>) -> bool {
    match t {
        SinkTarget::Mqtt => k is None,
        SinkTarget::Kafka(_) => k matches Some(x) && x@ == id,
    }
}

/// Lay out one publish for `m` under the active sink.
pub fn publish_plan(target: &SinkTarget, m: &AdsbMessage) -> (p: PublishPlan)
    ensures
        p.destination@ == plan_destination(*target, m.hex_ident@, m.transmission_type as int),
        plan_key_ok(*target, m.hex_ident@, p.key),
        p.payload@ == payload_model(*m),
{
    match target {
        SinkTarget::Mqtt => PublishPlan {
            destination: mqtt_topic(m),
            key: None,
            payload: payload_json(m),
        },
        SinkTarget::Kafka(topic) => PublishPlan {
            destination: topic.clone(),
            key: Some(m.hex_ident.clone()),
            payload: payload_json(m),
        },
    }
}

/// The transport-security protocol name the bus producer is configured
/// with, from the authentication mode and the encryption flag.
pub fn security_protocol(credentialed: bool, tls: bool) -> (s: &'static str)
    ensures
        credentialed && tls ==> s@ == "SASL_SSL"@,
        credentialed && !tls ==> s@ == "SASL_PLAINTEXT"@,
        !credentialed && tls ==> s@ == "SSL"@,
        !credentialed && !tls ==> s@ == "PLAINTEXT"@,
{
    if credentialed {
        if tls {
            "SASL_SSL"
        } else {
            "SASL_PLAINTEXT"
        }
    } else {
        if tls {
            "SSL"
        } else {
            "PLAINTEXT"
        }
    }
}

/// Whether the configured authentication mode is the credentialed one:
/// every value but the literal `Anonymous` selects it, the absent value
/// included.
pub fn credentialed_auth(auth: Option<&str>) -> (b: bool)
    ensures
        b <==> !(auth matches Some(a) && a@ == "Anonymous"@),
{
    match auth {
        Some(a) => !str_eq(a, "Anonymous"),
        None => true,
    }
}

} // verus!
