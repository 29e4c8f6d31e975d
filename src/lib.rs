//! Resource and binding layer for a single-draw OpenGL renderer.
//!
//! Every wrapper here keeps a local "bound" flag and, instead of calling the
//! driver itself, appends the driver calls it decides on to a caller-supplied
//! list of [`driver::DriverCall`]s. The caller runs that list against the real
//! graphics context, in order, and hands back what the driver answered
//! (object names, compile and link status, uniform locations).

pub mod driver;
pub mod handle;
pub mod buffer;
pub mod shader;
pub mod uniform;
pub mod texture;
pub mod mesh;
pub mod controls;
