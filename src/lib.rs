//! Cross-device GPU memory bridge and the frame-delivery pipeline that feeds it.
//!
//! The library holds the decisions of the bridge: which memory type backs the
//! shared image, when an import agrees with an export, when a frame may be
//! copied, how the capacity-one frame slot behaves, how the presentation loop
//! paces and recovers its surface, and in which order everything is torn down.
//! The graphics calls themselves are made by the application around it.

pub mod error;
pub mod memory;
pub mod bridge;
pub mod channel;
pub mod copy;
pub mod surface;
pub mod presentation;
pub mod stats;
pub mod shutdown;
pub mod assets;
