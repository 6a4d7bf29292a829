//! Instance-based build inputs for GPU ray-tracing acceleration structures.
//!
//! A scene is described to the ray-tracing driver as a collection of
//! *instances*: placements of previously built bottom-level acceleration
//! structures, each with its own transform, identifiers, visibility mask and
//! behavioral flags. This crate builds those per-instance records, pins their
//! driver-defined binary layout, and wraps device-resident sequences of them
//! in the tagged build-input descriptors the driver's structure builder
//! consumes.

pub mod accel;
pub mod flags;
pub mod instance;
pub mod instance_array;
pub mod layout;

pub use accel::Accel;
pub use accel::TraversableHandle;
pub use flags::InstanceFlags;
pub use instance::Instance;
pub use instance_array::BuildInputDescriptor;
pub use instance_array::BuildInputKind;
pub use instance_array::DeviceView;
pub use instance_array::InstanceArray;
pub use instance_array::InstancePointerArray;
pub use instance_array::LegacyBuildInputDescriptor;
