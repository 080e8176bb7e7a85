//! Configuration data as the core logic sees it.
//!
//! The settings are loaded and validated outside this library; here they are
//! plain values. Temperatures are millidegrees Celsius and the energy
//! coefficient is milliwatt-hours per liter per Kelvin, so that all derived
//! computation stays in exact integer arithmetic.

use vstd::prelude::*;

verus! {

/// Identity of one temperature sensor.
pub struct SensorConfig {
    /// Human-readable name of the sensor (e.g. "T1").
    pub name: String,
    /// 1-Wire device ID (e.g. "28-000000000001").
    pub id: String,
}

/// Message broker connection settings.
pub struct MqttConfig {
    /// Hostname or IP of the broker.
    pub host: String,
    /// Port of the broker (usually 1883).
    pub port: u16,
    /// Base topic under which sensor data is published.
    pub base_topic: String,
}

/// Boiler physical and calculation parameters.
pub struct BoilerConfig {
    /// Total volume of the boiler in liters.
    pub volume_l: u64,
    /// Reference temperature for the energy calculation, in millidegrees
    /// Celsius.
    pub reference_temp_milli_c: i64,
    /// Energy coefficient in milliwatt-hours per liter per Kelvin
    /// (1162 corresponds to the specific heat of water).
    pub energy_coefficient_milli: u64,
}

/// Root configuration.
pub struct Config {
    pub mqtt: MqttConfig,
    pub boiler: BoilerConfig,
    pub sensors: Vec<SensorConfig>,
}

} // verus!
