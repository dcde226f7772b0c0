use vstd::prelude::*;

verus! {

/// Names the remote device that collects data and sends it to the hub.
pub struct AgentConfig {
    pub device_name: String,
}

} // verus!
