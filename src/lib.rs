//! Connection supervision and the render-side last-value map of a viewer for
//! a NetworkTables telemetry server.
//!
//! The supervisor takes one command at a time and names the connection
//! attempts it wants; the caller performs them and hands back the outcome.
//! The render loop folds received topic values into a last-value map.

pub mod client;
pub mod supervisor;
pub mod topics;
pub mod render;
pub mod state;
