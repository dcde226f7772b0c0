use vstd::prelude::*;
use crate::htu21d::HTU21DFSensorData;

verus! {

/// What a device publishes to the hub.
pub enum Payload {
    HTU21DSData(HTU21DFSensorData),
}

} // verus!
