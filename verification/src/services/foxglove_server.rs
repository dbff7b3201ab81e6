//! The bridge to outside clients: which bus topic a client's message is meant for.
use crate::telemetry::{
    same_text, TOPIC_CMD_ESTOP, TOPIC_CMD_SKILL, TOPIC_CMD_VELOCITY, TOPIC_LOG_CONTROL,
};
use vstd::prelude::*;

verus! {

/// Where the bridge listens and what it calls itself.
#[derive(Debug, Clone)]
pub struct FoxgloveConfig {
    pub host: String,
    pub port: u16,
    pub name: String,
}

/// What becomes of a message that a client sent.
#[derive(Debug, Clone, Copy, PartialEq, Eq, Structural)]
pub enum ClientRoute {
    /// The channel's encoding is not JSON: the message is dropped.
    UnsupportedEncoding,
    /// A raw velocity command for the arbiter.
    Velocity,
    /// A skill request.
    Skill,
    /// An emergency-stop signal.
    Estop,
    /// A recording request.
    LogControl,
    /// A topic the bridge takes nothing from: the message is dropped.
    Ignored,
}

/// The route of a message by its channel: the encoding is judged first, then
/// the topic.
pub open spec fn route_spec(encoding: Seq<char>, topic: Seq<char>) -> ClientRoute {
    if encoding != "json"@ {
        ClientRoute::UnsupportedEncoding
    } else if topic == TOPIC_CMD_VELOCITY@ {
        ClientRoute::Velocity
    } else if topic == TOPIC_CMD_SKILL@ {
        ClientRoute::Skill
    } else if topic == TOPIC_CMD_ESTOP@ {
        ClientRoute::Estop
    } else if topic == TOPIC_LOG_CONTROL@ {
        ClientRoute::LogControl
    } else {
        ClientRoute::Ignored
    }
}

/// Decides what becomes of a client's message from the encoding and topic of
/// the channel it came on.
pub fn route_client_message(encoding: &str, topic: &str) -> (route: ClientRoute)
    ensures
        route == route_spec(encoding@, topic@),
{
    if !same_text(encoding, "json") {
        ClientRoute::UnsupportedEncoding
    } else if same_text(topic, TOPIC_CMD_VELOCITY) {
        ClientRoute::Velocity
    } else if same_text(topic, TOPIC_CMD_SKILL) {
        ClientRoute::Skill
    } else if same_text(topic, TOPIC_CMD_ESTOP) {
        ClientRoute::Estop
    } else if same_text(topic, TOPIC_LOG_CONTROL) {
        ClientRoute::LogControl
    } else {
        ClientRoute::Ignored
    }
}

} // verus!
