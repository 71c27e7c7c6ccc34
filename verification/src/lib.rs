//! A resource-translation and allocation layer for an explicit, low-level
//! graphics API.
//!
//! The library converts device-agnostic rendering descriptors (buffers,
//! textures, shader programs, pipeline state, samplers, resource views) into
//! the fixed-shape creation records the native driver protocol expects, and
//! manages the memory backing them.  The driver side is modeled: every
//! creation call appends its creation record to an object table owned by the
//! [`factory::Factory`] and yields the table index as the native handle, so
//! that every record the layer composes can be stated in contracts and
//! inspected after the fact.

pub mod native;
pub mod descriptors;
pub mod records;
pub mod translate;
pub mod handle;
pub mod factory;
pub mod pipeline;
