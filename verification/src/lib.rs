//! Input handling and surface bookkeeping for an interactive world map that is
//! drawn on a cylinder and turned by dragging.
//!
//! The crate decides; the host performs. Pointer and window events go in,
//! and what comes out says whether the surface has to be configured again or
//! the map has to be turned, and by which pointer movement.
pub mod state;
pub mod viewport;
