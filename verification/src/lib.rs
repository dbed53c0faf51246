//! Battery level monitoring: threshold validation, charge aggregation and the
//! alert state machine, with the command-line and notification decisions
//! around them.

pub mod battery;
pub mod charge;
pub mod monitor;
pub mod notify;
pub mod number;
pub mod options;
pub mod settings;
pub mod state;
pub mod text;
pub mod thresholds;
