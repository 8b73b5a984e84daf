//! A third-person camera that follows a target entity.
//!
//! Each frame the host hands the camera a decoded `FrameInput`. The input
//! arbiter turns it into a look-delta and a zoom-delta, the orbit turns the
//! camera without passing the poles, the zoom keeps the distance within its
//! bounds, aiming narrows the distance and restores it afterwards, the
//! offset toggle slides the shoulder offset between its extremes, and
//! synchronization finally places the camera relative to the target.
//!
//! All quantities are fixed-point integers (see `fixed`), so that every
//! step is exact and proved.
pub mod camera;
pub mod controller;
pub mod fixed;
pub mod input;
pub mod offset;
pub mod orbit;
pub mod zoom;
