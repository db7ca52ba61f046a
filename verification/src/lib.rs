//! Serving tier of an update-graph service: the shared state that a background
//! refresher publishes into and that the HTTP listeners read, the rules by
//! which a refresh cycle changes it, the health and metrics responses, and the
//! startup gate on required metrics.

pub mod lock;
pub mod metrics_gate;
pub mod registry;
pub mod routes;
pub mod snapshot;
pub mod state;
pub mod status;
