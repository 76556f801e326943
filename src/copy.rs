//! The copy step: whether a produced frame may be copied into the bridge, and
//! what the bridge shows afterwards.
use vstd::prelude::*;

use crate::bridge::{BridgeDescriptor, Extent, PixelFormat};

verus! {

/// A produced frame, as the copy step sees it.
#[derive(Debug, Clone, Copy, PartialEq, Eq, Structural)]
pub struct FrameInfo {
    /// Identifies the frame's content, e.g. its presentation timestamp.
    pub id: u64,
    pub format: PixelFormat,
    pub extent: Extent,
}

#[derive(Debug, Clone, Copy, PartialEq, Eq, Structural)]
pub enum CopyDecision {
    /// Copy the full extent of the frame into the bridge.
    Copy { extent: Extent },
    /// The frame does not fit the bridge: drop it and await the next one.
    SkipMismatch,
}

#[derive(Debug, Clone, Copy, PartialEq, Eq, Structural)]
pub enum CopyError {
    /// There is no bridge to copy into.
    BridgeMissing,
}

/// The bridge image and the frame whose content it last received.
#[derive(Debug, Clone, Copy, PartialEq, Eq, Structural)]
pub struct BridgeContents {
    pub descriptor: BridgeDescriptor,
    pub last_frame: Option<u64>,
}

/// A frame can be copied into a bridge with the same format and extent.
pub open spec fn fits(bridge: BridgeDescriptor, frame: FrameInfo) -> bool {
    bridge.format == frame.format && bridge.extent == frame.extent
}

impl BridgeContents {
    /// A freshly created bridge, which has received no frame.
    pub fn new(descriptor: BridgeDescriptor) -> (r: BridgeContents)
        ensures
            r.descriptor == descriptor,
            r.last_frame is None,
    {
        BridgeContents { descriptor, last_frame: None }
    }
}

/// Decides the copy of one frame, and records in `bridge` what it then holds.
/// A frame that does not fit is skipped and leaves the bridge as it was.
pub fn copy_frame_to_bridge(bridge: &mut Option<BridgeContents>, frame: &FrameInfo) -> (r: Result<CopyDecision, CopyError>)
    ensures
        match *old(bridge) {
            None => r == Err::<CopyDecision, CopyError>(CopyError::BridgeMissing) && *final(bridge) == *old(bridge),
            Some(b) => if fits(b.descriptor, *frame) {
                &&& r == Ok::<CopyDecision, CopyError>(CopyDecision::Copy { extent: frame.extent })
                &&& *final(bridge) == Some(BridgeContents { last_frame: Some(frame.id), ..b })
            } else {
                &&& r == Ok::<CopyDecision, CopyError>(CopyDecision::SkipMismatch)
                &&& *final(bridge) == *old(bridge)
            },
        },
{
    match bridge {
        None => Err(CopyError::BridgeMissing),
        Some(b) => {
            let d = b.descriptor;
            if d.format == frame.format && d.extent.width == frame.extent.width
                && d.extent.height == frame.extent.height {
                b.last_frame = Some(frame.id);
                Ok(CopyDecision::Copy { extent: frame.extent })
            } else {
                Ok(CopyDecision::SkipMismatch)
            }
        },
    }
}

} // verus!
