//! Control-plane core for a camera-monitoring deployment: the alert store,
//! the quiet-window logging policy, enrichment and notification planning, and
//! the camera command relay.

pub mod alerts;
pub mod cns;
pub mod json;
pub mod jsonlog;
pub mod pipeline;
pub mod relay;
pub mod severity;
pub mod store;
pub mod table;
