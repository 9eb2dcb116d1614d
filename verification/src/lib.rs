//! Third-person orbit-camera and player-movement controller.
//!
//! The library works in fixed-point arithmetic: every scalar (world units,
//! radians, seconds) is an `i64` holding `fx::SCALE` steps per unit.  The
//! host engine converts its own floating-point quantities at the boundary
//! and supplies the cosine/sine of the camera pitch, which the controller
//! consumes as plain data.
//!
//! Two components run once per frame, in order: the input aggregator
//! ([`input`]) reduces the queued pointer-motion and scroll events to a
//! single look/zoom delta pair, and the orbit controller ([`orbit`])
//! integrates that input into the player's heading, camera pitch and camera
//! distance, moves the player, and places the orbiting camera.

pub mod fx;
pub mod input;
pub mod laws;
pub mod orbit;
pub mod transform;
