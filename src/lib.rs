pub mod agent_conf;
pub mod agent_config;
pub mod checksum;
pub mod error;
pub mod htu21d;
pub mod poll;
pub mod protocol;
pub mod sensor_config;
pub mod text;
pub mod units;

pub use agent_config::AgentConfig;
pub use error::Error;
pub use htu21d::{
    combine_reading, combine_values, HTU21DFPollResult, HTU21DFSelection, HTU21DFSensorData,
    HTU21DFValues, Transaction, HTU21DF,
};
pub use poll::{PollResult, PollSelectable, Pollable};
pub use protocol::Payload;
pub use sensor_config::SensorConfig;
pub use units::{to_celcuis, to_fahrenhiet, Humidity, Temperature, TemperatureUnits};
