//! Force-field particle simulation engine: a set of spatial fields exerts
//! radius-limited, decaying forces on a set of point masses, advanced in
//! discrete time steps.
//!
//! The engine's scalar components (coordinates, strengths, tunables) are
//! carried as opaque 64-bit words whose numeric embedding is the caller's
//! choice; the verified core owns the state container, the structural
//! guarantees of the two step phases (field decay with pruning, then
//! per-parameter integration), the worker-chunking decision, and the
//! performance counters.

pub mod metrics;
pub mod world;

pub use metrics::MetricsContext;
pub use world::Parameter;
pub use world::ParameterField;
pub use world::PhysicsWorld;
pub use world::Vector3;
