//! Getting a presentable image from the window surface, and configuring it.
use vstd::prelude::*;

use crate::bridge::Extent;

verus! {

/// What one attempt to acquire the surface's next image returned.
#[derive(Debug, Clone, Copy, PartialEq, Eq, Structural)]
pub enum AcquireOutcome {
    Acquired { suboptimal: bool },
    Outdated,
    Lost,
    Timeout,
    OutOfMemory,
    Other,
}

/// Where an acquisition within one tick stands.
#[derive(Debug, Clone, Copy, PartialEq, Eq, Structural)]
pub enum AcquirePhase {
    /// No attempt yet.
    First,
    /// The surface was outdated or lost, reconfigured, and is being retried.
    Retried,
    /// The image was sub-optimal; the surface was reconfigured and is re-acquired.
    Reacquired,
}

#[derive(Debug, Clone, Copy, PartialEq, Eq, Structural)]
pub enum SurfaceFailure {
    /// The retry after reconfiguring failed as well.
    RetryFailed,
    /// An error that reconfiguring does not mend.
    Fatal,
}

#[derive(Debug, Clone, Copy, PartialEq, Eq, Structural)]
pub enum AcquireAction {
    /// Draw into the acquired image and present it.
    Present,
    /// Release any acquired image, reconfigure the surface, and acquire again.
    ReconfigureAndRetry,
    /// Give up on this tick's presentation.
    Fail(SurfaceFailure),
}

pub open spec fn is_stale(o: AcquireOutcome) -> bool {
    o == AcquireOutcome::Outdated || o == AcquireOutcome::Lost
}

/// The decision for one acquisition attempt, and the phase after it.
pub open spec fn acquire_step(phase: AcquirePhase, o: AcquireOutcome) -> (AcquireAction, AcquirePhase) {
    match o {
        AcquireOutcome::Acquired { suboptimal } => if suboptimal && phase != AcquirePhase::Reacquired {
            (AcquireAction::ReconfigureAndRetry, AcquirePhase::Reacquired)
        } else {
            (AcquireAction::Present, phase)
        },
        _ => if phase == AcquirePhase::First && is_stale(o) {
            (AcquireAction::ReconfigureAndRetry, AcquirePhase::Retried)
        } else if phase == AcquirePhase::First {
            (AcquireAction::Fail(SurfaceFailure::Fatal), phase)
        } else {
            (AcquireAction::Fail(SurfaceFailure::RetryFailed), phase)
        },
    }
}

/// The acquisition of one image, within one presentation tick.
pub struct SurfaceAcquisition {
    pub phase: AcquirePhase,
}

impl SurfaceAcquisition {
    pub fn new() -> (r: SurfaceAcquisition)
        ensures
            r.phase == AcquirePhase::First,
    {
        SurfaceAcquisition { phase: AcquirePhase::First }
    }

    /// Decides what to do with the outcome of an attempt. An outdated or lost
    /// surface is reconfigured and retried once; a sub-optimal image is
    /// reconfigured and re-acquired once; any other failure, and any failure
    /// after a reconfigure, ends the tick's presentation.
    pub fn step(&mut self, outcome: AcquireOutcome) -> (r: AcquireAction)
        ensures
            (r, final(self).phase) == acquire_step(old(self).phase, outcome),
    {
        match outcome {
            AcquireOutcome::Acquired { suboptimal } => {
                if suboptimal && self.phase != AcquirePhase::Reacquired {
                    self.phase = AcquirePhase::Reacquired;
                    AcquireAction::ReconfigureAndRetry
                } else {
                    AcquireAction::Present
                }
            },
            _ => {
                let stale = outcome == AcquireOutcome::Outdated || outcome == AcquireOutcome::Lost;
                if self.phase == AcquirePhase::First && stale {
                    self.phase = AcquirePhase::Retried;
                    AcquireAction::ReconfigureAndRetry
                } else if self.phase == AcquirePhase::First {
                    AcquireAction::Fail(SurfaceFailure::Fatal)
                } else {
                    AcquireAction::Fail(SurfaceFailure::RetryFailed)
                }
            },
        }
    }
}

/// A first attempt that finds the surface outdated or lost leads to exactly one
/// reconfigure-and-retry. If the retry fails as well the tick escalates to a
/// failure; if it succeeds with a current image, that image is presented.
pub proof fn lemma_stale_surface_retried_once(first: AcquireOutcome, second: AcquireOutcome)
    requires
        is_stale(first),
    ensures
        acquire_step(AcquirePhase::First, first) == (AcquireAction::ReconfigureAndRetry, AcquirePhase::Retried),
        !(second is Acquired) ==> acquire_step(AcquirePhase::Retried, second).0 == AcquireAction::Fail(
            SurfaceFailure::RetryFailed,
        ),
        second == (AcquireOutcome::Acquired { suboptimal: false }) ==> acquire_step(AcquirePhase::Retried, second).0
            == AcquireAction::Present,
{
}

/// Within one tick there are at most three attempts: after a second
/// reconfigure, every outcome either presents or fails.
pub proof fn lemma_acquisition_ends(o1: AcquireOutcome, o2: AcquireOutcome, o3: AcquireOutcome)
    ensures
        ({
            let (a1, first_after) = acquire_step(AcquirePhase::First, o1);
            let (a2, second_after) = acquire_step(first_after, o2);
            let (a3, _) = acquire_step(second_after, o3);
            a1 == AcquireAction::ReconfigureAndRetry && a2 == AcquireAction::ReconfigureAndRetry
                ==> a3 != AcquireAction::ReconfigureAndRetry
        }),
{
}

/// What the surface offers of one pixel format.
#[derive(Debug, Clone, Copy, PartialEq, Eq, Structural)]
pub struct FormatInfo {
    /// The format is RGBA, eight bits per channel, sRGB: the bridge's own format.
    pub rgba8_srgb: bool,
    pub srgb: bool,
}

pub open spec fn first_index_where(formats: Seq<FormatInfo>, pred: spec_fn(FormatInfo) -> bool, i: int) -> bool {
    &&& 0 <= i < formats.len()
    &&& pred(formats[i])
    &&& forall|j: int| 0 <= j < i ==> !pred(#[trigger] formats[j])
}

/// Picks the surface format: the bridge's own format when offered, else the
/// first sRGB format, else the first format. A surface that offers none gives
/// `None`.
pub fn choose_surface_format(formats: &Vec<FormatInfo>) -> (r: Option<usize>)
    ensures
        formats@.len() == 0 <==> r is None,
        r matches Some(i) ==> {
            if exists|j: int| 0 <= j < formats@.len() && (#[trigger] formats@[j]).rgba8_srgb {
                first_index_where(formats@, |f: FormatInfo| f.rgba8_srgb, i as int)
            } else if exists|j: int| 0 <= j < formats@.len() && (#[trigger] formats@[j]).srgb {
                first_index_where(formats@, |f: FormatInfo| f.srgb, i as int)
            } else {
                i == 0
            }
        },
{
    let n = formats.len();
    if n == 0 {
        return None;
    }
    let mut i: usize = 0;
    while i < n
        invariant
            n == formats@.len(),
            forall|j: int| 0 <= j < i ==> !(#[trigger] formats@[j]).rgba8_srgb,
        decreases n - i,
    {
        if formats[i].rgba8_srgb {
            return Some(i);
        }
        i = i + 1;
    }
    let mut k: usize = 0;
    while k < n
        invariant
            n == formats@.len(),
            forall|j: int| 0 <= j < n ==> !(#[trigger] formats@[j]).rgba8_srgb,
            forall|j: int| 0 <= j < k ==> !(#[trigger] formats@[j]).srgb,
        decreases n - k,
    {
        if formats[k].srgb {
            return Some(k);
        }
        k = k + 1;
    }
    Some(0)
}

pub open spec fn should_configure_spec(size: Extent) -> bool {
    size.width > 0 && size.height > 0
}

/// A surface is configured only for a size with no zero side.
pub fn should_configure(size: Extent) -> (r: bool)
    ensures
        r == should_configure_spec(size),
{
    size.width > 0 && size.height > 0
}

} // verus!
