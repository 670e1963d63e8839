//! Pan-and-zoom view transform for a captured screen image.
//!
//! The crate holds the arithmetic of a screen magnifier: turning raw display
//! pixels into a packed RGB texture, the textured quad that carries it, the
//! pan/zoom state with its inertial damping, the cursor edge-wrap rule, and
//! the per-frame decisions of the event loop. Everything is integer
//! arithmetic; scalars that are fractional by nature are fixed-point values
//! with nine decimal digits (see [`fixed`]).

pub mod fixed;
pub mod capture;
pub mod geometry;
pub mod quad;
pub mod session;
pub mod view;
