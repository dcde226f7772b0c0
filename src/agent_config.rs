use vstd::prelude::*;

verus! {

/// How often an HTU21D(F) agent polls, and the topic it publishes on.
pub struct HTU21DFConfig {
    pub polling_freq: u32,
    pub zenoh_topic_channel: String,
}

/// One configured agent, tagged by sensor model.
pub enum Agents {
    HTU21DF(HTU21DFConfig),
}

/// A device's identity, the hub it talks to, and its agents.
pub struct AgentConfig {
    pub id: String,
    pub zenoh_hub_endpoint: String,
    pub agents: Option<Vec<Agents>>,
}

} // verus!
