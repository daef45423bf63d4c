//! Core logic of an evade-the-pointer vignette: a repulsion force field that
//! drives widget and projectile motion, a toroidal wrap that projects a widget
//! across screen edges, an arbiter that picks one authoritative duplicate for
//! pointer interaction, and the timed stage orchestration around them.
//!
//! All geometry is carried in integer subpixel units (1000 units per pixel);
//! the rendering shell converts to screen coordinates at its edge.

pub mod arbiter;
pub mod dialogue;
pub mod force;
pub mod geom;
pub mod rocket;
pub mod stage;
pub mod view;
pub mod wrap;
