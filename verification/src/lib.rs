//! Mesh preparation for a normal-mapped OpenGL renderer: vertex layout,
//! per-triangle tangent frames, and the command plans that put a mesh on the
//! GPU, draw it and release it.
//!
//! Every scalar of a vertex is carried as the bit pattern of an IEEE-754
//! binary32 number (what `to_bits` gives), so the geometry can be moved, laid
//! out and uploaded without any arithmetic on the numbers themselves. The
//! arithmetic of a tangent frame is done by the caller, one triangle at a
//! time, between [`mesh::Mesh::tangent_inputs`] and
//! [`mesh::Mesh::calculate_tangents`].
//!
//! Nothing here talks to a graphics context. Object names are handed in by
//! the caller, and what the context has to do comes back as a list of
//! [`gpu::GlCommand`]s to be run in order.

pub mod bytes;
pub mod gpu;
pub mod loader;
pub mod mesh;
pub mod tangent;
pub mod vertex;
