use vstd::prelude::*;

verus! {

/// Failures while setting up either side of the bridge.
#[derive(Debug, Clone, Copy, PartialEq, Eq, Structural)]
pub enum BridgeError {
    /// No memory type is both allowed by the image and device-local.
    Allocation,
    /// The platform could not produce an OS handle for the exported memory.
    HandleExport,
    /// The consumer side could not import the shared memory.
    Import,
}

} // verus!
