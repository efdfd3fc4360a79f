//! Decision logic of the AirPods companion service: who owns media control,
//! which MPRIS players to pause and resume, debug counters, and the bookkeeping
//! of the BlueZ battery provider.

pub mod bus_names;
pub mod control_ownership;
pub mod media_control;
pub mod metrics;
pub mod battery_provider;
