//! The two sides of the bridge: what each side creates, in which order, and what
//! it must release when a step fails or when it is torn down.
use vstd::prelude::*;

use crate::error::BridgeError;
use crate::memory::{
    find_memory_type_index, has_candidate, is_candidate, lemma_lowest_candidate, lemma_selection_is_unique,
    lowest_candidate, MemoryProperties,
};

verus! {

/// Pixel format of the bridge image.
#[derive(Debug, Clone, Copy, PartialEq, Eq, Structural)]
pub enum PixelFormat {
    /// RGBA, eight bits per channel, sRGB: the bridge's format.
    Rgba8UnormSrgb,
    /// Any format whose texels cannot be copied into the bridge as they are.
    Other,
}

/// Width and height of an image, in pixels.
#[derive(Debug, Clone, Copy, PartialEq, Eq, Structural)]
pub struct Extent {
    pub width: u32,
    pub height: u32,
}

/// Format and extent of a bridge image, fixed when the bridge is created.
#[derive(Debug, Clone, Copy, PartialEq, Eq, Structural)]
pub struct BridgeDescriptor {
    pub format: PixelFormat,
    pub extent: Extent,
}

impl BridgeDescriptor {
    /// A usable bridge image has a positive extent.
    pub open spec fn valid(self) -> bool {
        self.extent.width > 0 && self.extent.height > 0
    }

    /// The descriptor of a bridge at the given resolution, in the bridge format.
    pub fn from_resolution(width: u32, height: u32) -> (r: BridgeDescriptor)
        ensures
            r.format == PixelFormat::Rgba8UnormSrgb,
            r.extent == (Extent { width, height }),
    {
        BridgeDescriptor { format: PixelFormat::Rgba8UnormSrgb, extent: Extent { width, height } }
    }
}

/// Which side of the bridge a setup belongs to.
#[derive(Debug, Clone, Copy, PartialEq, Eq, Structural)]
pub enum Side {
    /// The producer side: allocates exportable memory and hands out its handle.
    Export,
    /// The consumer side: binds its own image to the memory behind the handle.
    Import,
}

/// The step a bridge setup is waiting on.
#[derive(Debug, Clone, Copy, PartialEq, Eq, Structural)]
pub enum SetupStage {
    CreateImage,
    AllocateMemory,
    BindMemory,
    ExportHandle,
    Done,
    Failed,
}

/// What the graphics layer reports after performing the requested step.
#[derive(Debug, Clone, Copy, PartialEq, Eq, Structural)]
pub enum SetupEvent {
    /// The image exists; its memory requirements allow the types in `type_bits`.
    ImageCreated { type_bits: u32 },
    MemoryAllocated,
    MemoryBound,
    HandleExported,
    /// The call for the current step failed.
    CallFailed,
}

/// What the graphics layer must do next.
#[derive(Debug, Clone, Copy, PartialEq, Eq, Structural)]
pub enum SetupAction {
    /// Allocate (export side) or import (import side) memory of this type.
    AllocateMemory { type_index: u32 },
    BindMemory,
    ExportHandle,
    /// The bridge image is ready.
    Complete,
    /// Setup failed: release what was created, then report the error.
    Abort { error: BridgeError, destroy_image: bool, free_memory: bool },
    /// The event does not belong to the current step; nothing changed.
    Ignored,
}

/// Progress of creating one side of the bridge.
pub struct BridgeSetup {
    pub side: Side,
    pub descriptor: BridgeDescriptor,
    pub stage: SetupStage,
    pub image_created: bool,
    pub memory_allocated: bool,
    pub memory_type: Option<u32>,
}

/// The error a failure at `stage` maps to on `side`. On the import side every
/// failure is an import failure; on the export side only the handle export has
/// its own kind, every other failure is an allocation failure.
pub open spec fn stage_error(side: Side, stage: SetupStage) -> BridgeError {
    match side {
        Side::Import => BridgeError::Import,
        Side::Export => if stage == SetupStage::ExportHandle {
            BridgeError::HandleExport
        } else {
            BridgeError::Allocation
        },
    }
}

fn failure_for(side: Side, stage: SetupStage) -> (r: BridgeError)
    ensures
        r == stage_error(side, stage),
{
    match side {
        Side::Import => BridgeError::Import,
        Side::Export => if stage == SetupStage::ExportHandle {
            BridgeError::HandleExport
        } else {
            BridgeError::Allocation
        },
    }
}

/// A setup of `side` for `descriptor` that has done nothing yet.
pub open spec fn fresh_setup(side: Side, descriptor: BridgeDescriptor) -> BridgeSetup {
    BridgeSetup {
        side,
        descriptor,
        stage: SetupStage::CreateImage,
        image_created: false,
        memory_allocated: false,
        memory_type: None,
    }
}

pub open spec fn export_start(descriptor: BridgeDescriptor) -> BridgeSetup {
    fresh_setup(Side::Export, descriptor)
}

pub open spec fn import_start(descriptor: BridgeDescriptor) -> BridgeSetup {
    fresh_setup(Side::Import, descriptor)
}

/// How a setup reacts to what the graphics layer reports. A failed call
/// releases exactly what exists and reports the stage's error. A created image
/// gets the lowest allowed device-local memory type, or the setup aborts with
/// an allocation failure. The export side ends with the handle export, the
/// import side right after binding. An event that does not belong to the
/// current step changes nothing.
pub open spec fn setup_next(s: BridgeSetup, e: SetupEvent, flags: Seq<u32>) -> (BridgeSetup, SetupAction) {
    match e {
        SetupEvent::CallFailed => if s.stage == SetupStage::Done || s.stage == SetupStage::Failed {
            (s, SetupAction::Ignored)
        } else {
            (
                BridgeSetup { stage: SetupStage::Failed, image_created: false, memory_allocated: false, ..s },
                SetupAction::Abort {
                    error: stage_error(s.side, s.stage),
                    destroy_image: s.image_created,
                    free_memory: s.memory_allocated,
                },
            )
        },
        SetupEvent::ImageCreated { type_bits } => if s.stage != SetupStage::CreateImage {
            (s, SetupAction::Ignored)
        } else if has_candidate(type_bits, flags) {
            let i = lowest_candidate(type_bits, flags) as u32;
            (
                BridgeSetup {
                    stage: SetupStage::AllocateMemory,
                    image_created: true,
                    memory_type: Some(i),
                    ..s
                },
                SetupAction::AllocateMemory { type_index: i },
            )
        } else {
            (
                BridgeSetup { stage: SetupStage::Failed, ..s },
                SetupAction::Abort {
                    error: stage_error(s.side, SetupStage::AllocateMemory),
                    destroy_image: true,
                    free_memory: false,
                },
            )
        },
        SetupEvent::MemoryAllocated => if s.stage != SetupStage::AllocateMemory {
            (s, SetupAction::Ignored)
        } else {
            (BridgeSetup { stage: SetupStage::BindMemory, memory_allocated: true, ..s }, SetupAction::BindMemory)
        },
        SetupEvent::MemoryBound => if s.stage != SetupStage::BindMemory {
            (s, SetupAction::Ignored)
        } else {
            match s.side {
                Side::Export => (BridgeSetup { stage: SetupStage::ExportHandle, ..s }, SetupAction::ExportHandle),
                Side::Import => (BridgeSetup { stage: SetupStage::Done, ..s }, SetupAction::Complete),
            }
        },
        SetupEvent::HandleExported => if s.stage != SetupStage::ExportHandle {
            (s, SetupAction::Ignored)
        } else {
            (BridgeSetup { stage: SetupStage::Done, ..s }, SetupAction::Complete)
        },
    }
}

impl BridgeSetup {
    /// Resources are created in order: memory only after the image, and a
    /// memory type is known exactly when memory may have been allocated.
    pub open spec fn wf(self) -> bool {
        &&& self.memory_allocated ==> self.image_created
        &&& self.stage == SetupStage::CreateImage ==> !self.image_created
        &&& (self.stage == SetupStage::AllocateMemory ==> self.image_created && !self.memory_allocated
            && self.memory_type.is_some())
        &&& (self.stage == SetupStage::BindMemory || self.stage == SetupStage::ExportHandle)
            ==> self.memory_allocated
        &&& self.stage == SetupStage::ExportHandle ==> self.side == Side::Export
        &&& self.stage == SetupStage::Done ==> self.memory_allocated
        &&& self.stage == SetupStage::Failed ==> !self.image_created && !self.memory_allocated
    }

    /// Starts the export side: the first step is creating the image.
    pub fn start_export(descriptor: BridgeDescriptor) -> (r: BridgeSetup)
        ensures
            r.wf(),
            r == export_start(descriptor),
    {
        BridgeSetup {
            side: Side::Export,
            descriptor,
            stage: SetupStage::CreateImage,
            image_created: false,
            memory_allocated: false,
            memory_type: None,
        }
    }

    /// Starts the import side for a bridge that was exported with `exported`.
    /// The importer's image must agree with the exporter's in format and
    /// extent; otherwise the import fails at once.
    pub fn start_import(exported: BridgeDescriptor, requested: BridgeDescriptor) -> (r: Result<BridgeSetup, BridgeError>)
        ensures
            match r {
                Ok(s) => exported == requested && s.wf() && s == import_start(requested),
                Err(e) => exported != requested && e == BridgeError::Import,
            },
    {
        if exported.format == requested.format && exported.extent.width == requested.extent.width
            && exported.extent.height == requested.extent.height {
            Ok(BridgeSetup {
                side: Side::Import,
                descriptor: requested,
                stage: SetupStage::CreateImage,
                image_created: false,
                memory_allocated: false,
                memory_type: None,
            })
        } else {
            Err(BridgeError::Import)
        }
    }

    /// Advances the setup by the outcome of the step it asked for: the
    /// transition `setup_next` describes.
    pub fn step(&mut self, event: SetupEvent, props: &MemoryProperties) -> (action: SetupAction)
        requires
            old(self).wf(),
        ensures
            final(self).wf(),
            (*final(self), action) == setup_next(*old(self), event, props.type_flags@),
    {
        let stage = self.stage;
        match event {
            SetupEvent::CallFailed => {
                if stage == SetupStage::Done || stage == SetupStage::Failed {
                    return SetupAction::Ignored;
                }
                let action = SetupAction::Abort {
                    error: failure_for(self.side, stage),
                    destroy_image: self.image_created,
                    free_memory: self.memory_allocated,
                };
                self.stage = SetupStage::Failed;
                self.image_created = false;
                self.memory_allocated = false;
                action
            },
            SetupEvent::ImageCreated { type_bits } => {
                if stage != SetupStage::CreateImage {
                    return SetupAction::Ignored;
                }
                match find_memory_type_index(type_bits, props) {
                    Ok(i) => {
                        proof {
                            let flags = props.type_flags@;
                            assert(is_candidate(type_bits, flags, i as int));
                            let k = lowest_candidate(type_bits, flags);
                            lemma_selection_is_unique(type_bits, flags, i as int, k);
                        }
                        self.stage = SetupStage::AllocateMemory;
                        self.image_created = true;
                        self.memory_type = Some(i);
                        SetupAction::AllocateMemory { type_index: i }
                    },
                    Err(_) => {
                        self.stage = SetupStage::Failed;
                        SetupAction::Abort {
                            error: failure_for(self.side, SetupStage::AllocateMemory),
                            destroy_image: true,
                            free_memory: false,
                        }
                    },
                }
            },
            SetupEvent::MemoryAllocated => {
                if stage != SetupStage::AllocateMemory {
                    return SetupAction::Ignored;
                }
                self.stage = SetupStage::BindMemory;
                self.memory_allocated = true;
                SetupAction::BindMemory
            },
            SetupEvent::MemoryBound => {
                if stage != SetupStage::BindMemory {
                    return SetupAction::Ignored;
                }
                match self.side {
                    Side::Export => {
                        self.stage = SetupStage::ExportHandle;
                        SetupAction::ExportHandle
                    },
                    Side::Import => {
                        self.stage = SetupStage::Done;
                        SetupAction::Complete
                    },
                }
            },
            SetupEvent::HandleExported => {
                if stage != SetupStage::ExportHandle {
                    return SetupAction::Ignored;
                }
                self.stage = SetupStage::Done;
                SetupAction::Complete
            },
        }
    }
}

/// Export then import of one descriptor: when the image's requirements allow a
/// device-local memory type, both sides complete when every call succeeds, and
/// both bind their image, of the same format and extent, to the same memory
/// type, the lowest one allowed.
pub proof fn lemma_export_then_import_agree(d: BridgeDescriptor, type_bits: u32, flags: Seq<u32>)
    requires
        has_candidate(type_bits, flags),
    ensures
        ({
            let k = lowest_candidate(type_bits, flags) as u32;
            let (e1, a1) = setup_next(export_start(d), SetupEvent::ImageCreated { type_bits }, flags);
            let (e2, a2) = setup_next(e1, SetupEvent::MemoryAllocated, flags);
            let (e3, a3) = setup_next(e2, SetupEvent::MemoryBound, flags);
            let (e4, a4) = setup_next(e3, SetupEvent::HandleExported, flags);
            let (i1, b1) = setup_next(import_start(d), SetupEvent::ImageCreated { type_bits }, flags);
            let (i2, b2) = setup_next(i1, SetupEvent::MemoryAllocated, flags);
            let (i3, b3) = setup_next(i2, SetupEvent::MemoryBound, flags);
            &&& is_candidate(type_bits, flags, k as int)
            &&& a1 == SetupAction::AllocateMemory { type_index: k }
            &&& b1 == a1
            &&& a2 == SetupAction::BindMemory && b2 == SetupAction::BindMemory
            &&& a3 == SetupAction::ExportHandle
            &&& a4 == SetupAction::Complete && b3 == SetupAction::Complete
            &&& e4.stage == SetupStage::Done && i3.stage == SetupStage::Done
            &&& e4.memory_type == Some(k) && i3.memory_type == Some(k)
            &&& e4.descriptor == d && i3.descriptor == d
        }),
{
    lemma_lowest_candidate(type_bits, flags);
}

/// The OS handle that names the exported memory. It is handed from the
/// exporting code to the importing code once: after `take`, nothing is left.
pub struct SharedMemoryHandle {
    fd: Option<i32>,
}

impl View for SharedMemoryHandle {
    type V = Option<i32>;

    closed spec fn view(&self) -> Option<i32> {
        self.fd
    }
}

impl SharedMemoryHandle {
    pub fn new(fd: i32) -> (r: SharedMemoryHandle)
        ensures
            r@ == Some(fd),
    {
        SharedMemoryHandle { fd: Some(fd) }
    }

    /// Hands out the handle value, the first time only.
    pub fn take(&mut self) -> (r: Option<i32>)
        ensures
            r == old(self)@,
            final(self)@ == None::<i32>,
    {
        let r = self.fd;
        self.fd = None;
        r
    }
}

/// What a teardown must release.
#[derive(Debug, Clone, Copy, PartialEq, Eq, Structural)]
pub struct Release {
    pub destroy_image: bool,
    pub free_memory: bool,
}

/// The owner of one side's image and memory, with a single teardown.
pub struct BridgeOwner {
    side: Side,
    image_alive: bool,
    memory_alive: bool,
}

impl BridgeOwner {
    pub closed spec fn spec_side(&self) -> Side {
        self.side
    }

    /// The image and its memory are still held.
    pub closed spec fn alive(&self) -> bool {
        self.image_alive && self.memory_alive
    }

    /// Nothing is held any more.
    pub closed spec fn released(&self) -> bool {
        !self.image_alive && !self.memory_alive
    }

    /// Takes ownership of the resources of a completed setup.
    pub fn from_setup(setup: &BridgeSetup) -> (r: Option<BridgeOwner>)
        requires
            setup.wf(),
        ensures
            match r {
                Some(o) => setup.stage == SetupStage::Done && o.alive() && o.spec_side() == setup.side,
                None => setup.stage != SetupStage::Done,
            },
    {
        if setup.stage == SetupStage::Done {
            Some(BridgeOwner { side: setup.side, image_alive: true, memory_alive: true })
        } else {
            None
        }
    }

    pub fn side(&self) -> (r: Side)
        ensures
            r == self.spec_side(),
    {
        self.side
    }

    /// Releases the image and the memory. Each is released by the first
    /// teardown only; a later one releases nothing.
    pub fn teardown(&mut self) -> (r: Release)
        ensures
            old(self).alive() ==> r == (Release { destroy_image: true, free_memory: true }),
            old(self).released() ==> r == (Release { destroy_image: false, free_memory: false }),
            final(self).released(),
            final(self).spec_side() == old(self).spec_side(),
    {
        let r = Release { destroy_image: self.image_alive, free_memory: self.memory_alive };
        self.image_alive = false;
        self.memory_alive = false;
        r
    }
}

} // verus!
