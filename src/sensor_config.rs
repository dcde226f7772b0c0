use vstd::prelude::*;

verus! {

/// Polling settings of the temperature channel.
pub struct HTU21DFTemperatureConfig {
    pub polling_freq: u32,
}

/// Polling settings of the humidity channel.
pub struct HTU21DFHumidityConfig {
    pub polling_freq: u32,
}

/// The channels of one HTU21D(F) sensor, each optional.
pub struct HTU21DFConfig {
    pub humidity_sensor_config: Option<HTU21DFHumidityConfig>,
    pub temperature_sensor_config: Option<HTU21DFTemperatureConfig>,
}

/// One configured sensor, tagged by model.
pub enum Sensor {
    HTU21DF(HTU21DFConfig),
}

/// A device's identity, the hub it talks to, and its sensors.
pub struct SensorConfig {
    pub id: String,
    pub zenoh_hub_endpoint: String,
    pub sensors: Option<Vec<Sensor>>,
}

} // verus!
