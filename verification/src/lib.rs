//! A self-monitoring telemetry core: an in-memory metrics registry shared by
//! a request counter hook, a resource sampler and a pull-based exposition
//! endpoint, together with the lifecycle state machine of the push export
//! providers.
//!
//! The registry is the single source of truth: request handlers count into
//! it, the sampler folds OS resource readings into it, and the exposition
//! endpoint serialises an atomic snapshot of it on every pull. All access
//! goes through one mutual-exclusion domain owned by the embedding service.

pub mod expose;
pub mod lifecycle;
pub mod registry;
pub mod sampler;
pub mod service;

pub use registry::MetricKind;
pub use registry::MetricValue;
pub use registry::Registry;
pub use registry::RegistryError;
pub use sampler::ResourceReading;
pub use sampler::SampleOutcome;
pub use sampler::Sampler;
pub use service::AppMetrics;
pub use lifecycle::Pipeline;
pub use lifecycle::Provider;
pub use lifecycle::ProviderError;
pub use lifecycle::ProviderState;
pub use lifecycle::ResourceIdentity;
pub use lifecycle::SignalKind;
