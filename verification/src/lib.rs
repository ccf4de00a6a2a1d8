//! Input-to-locomotion mapping for a physics-driven character controller.
//!
//! The crate turns raw, frame-sampled device state (held keys, mouse deltas,
//! controller axes, an optional headset pose) into a camera- or
//! headset-relative locomotion command: a world-space desired velocity, a
//! float-height set-point and an optional jump trigger.  All geometry is
//! carried in fixed-point coordinates (see [`math::SCALE`]) so that every
//! step of the mapping has an exact arithmetic specification.

pub mod actions;
pub mod frame;
pub mod geom;
pub mod look;
pub mod math;
