//! The decisions of a controller that exposes Kubernetes load balancer services on a tailnet.
//!
//! A service of the controller's load balancer class gets a volume claim, a proxy deployment and
//! a node in the control plane of the tailnet, and learns the addresses of that node. This crate
//! says what to ask of the cluster and of the control plane, in which order, and what to make of
//! their replies. It performs no input or output.

pub mod api;
pub mod context;
pub mod control_plane_laws;
pub mod error;
pub mod laws;
pub mod local_status;
pub mod model_laws;
pub mod object_laws;
pub mod objects;
pub mod plan;
pub mod plan_laws;
pub mod pod_watch;
pub mod reconcile;
pub mod registration;
pub mod request;
pub mod resources;
pub mod search_laws;
pub mod settings_laws;
pub mod string_map;
pub mod text;
