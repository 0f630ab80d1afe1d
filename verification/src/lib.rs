//! Boundary-adaptation layer for running a native inference engine inside a
//! browser-hosted execution environment.
//!
//! The crate owns the boundary protocol, not the inference math: a uniform
//! [`Error`] adapted from arbitrary host failure values, a feature-gated,
//! idempotent runtime-initialization handshake, and the lifecycle of the
//! opaque engine environment handle.

mod env;
mod error;
mod runtime;

pub use env::lemma_borrow_identity_stable;
pub use env::EnvHandle;
pub use env::Environment;
pub use error::fallback_message;
pub use error::Error;
pub use runtime::api;
pub use runtime::host_satisfies;
pub use runtime::lemma_initialize_idempotent;
pub use runtime::lemma_webnn_is_webgpu;
pub use runtime::spec_denial_message;
pub use runtime::spec_init_succeeds;
pub use runtime::spec_wants_webgl;
pub use runtime::spec_wants_webgpu;
pub use runtime::wants_webgl;
pub use runtime::wants_webgpu;
pub use runtime::ApiTable;
pub use runtime::HostCapabilities;
pub use runtime::RuntimeState;
pub use runtime::FEATURE_NONE;
pub use runtime::FEATURE_WEBGL;
pub use runtime::FEATURE_WEBGPU;
pub use runtime::FEATURE_WEBNN;
