//! Verified decision logic of a gateway's extension layer: the contract of a
//! stage unit and the chain that composes units, the registry of extension
//! kinds, and three extensions: a per-backend error visibility filter, a
//! static page responder and a telemetry reporting extension with its
//! background orchestrator.

pub mod decimal;
pub mod include_subgraph_errors;
pub mod orchestrator;
pub mod registry;
pub mod reporting;
pub mod stage;
pub mod static_page;
pub mod tracer;
