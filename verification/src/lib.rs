//! Discovery-and-export pipeline for a cluster-style control-plane API.
//!
//! The library holds the verified core of the pipeline: the listing plan for
//! each discovered resource kind, the ignore-rule filter, file-name templating
//! and sanitization, and item sanitization. The asynchronous client calls, the
//! bounded channel and the file writes live outside, in a thin shell that
//! drives these functions.

pub mod enumerator;
pub mod formatter;
pub mod model;
pub mod text;

pub use model::DiscoveryError;
pub use model::DiscoveryItem;
pub use model::DiscoveryNamespaces;
pub use model::Item;
pub use model::K8sDiscovery;
pub use model::ListPlan;
pub use model::ResourceDescriptor;
pub use model::ResourceScope;
pub use model::GATEWAY_CAPACITY;
pub use text::sanitize_segment;
