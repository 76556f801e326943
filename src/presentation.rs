//! The presentation loop: window and surface states, the fixed-interval redraw
//! schedule, and the lazily built blit pipeline. Times are nanoseconds on a
//! monotonic clock.
use vstd::prelude::*;

use crate::bridge::Extent;
use crate::surface::{should_configure, should_configure_spec};

verus! {

/// Size of the window that the loop asks for.
pub const WINDOW_WIDTH: u32 = 1920;
pub const WINDOW_HEIGHT: u32 = 1080;

/// Longest a signalled consumer waits for a new frame before it redraws anyway.
pub const DEFAULT_FRAME_WAIT_NS: u64 = 100_000_000;

#[derive(Debug, Clone, Copy, PartialEq, Eq, Structural)]
pub enum LoopState {
    Uninitialized,
    SurfaceCreated,
    Ready,
    Closed,
}

/// What the window system and the graphics layer report to the loop.
#[derive(Debug, Clone, Copy, PartialEq, Eq, Structural)]
pub enum LoopEvent {
    /// The application may create its window.
    Resumed,
    /// The window and its surface exist, with this inner size.
    SurfaceCreated { size: Extent, now: u64 },
    /// Configuring the surface succeeded.
    SurfaceConfigured,
    Resized { size: Extent },
    RedrawRequested,
    CloseRequested,
    /// The producer has written a new frame into the bridge.
    FrameReady,
}

#[derive(Debug, Clone, Copy, PartialEq, Eq, Structural)]
pub enum LoopAction {
    CreateWindow { size: Extent },
    ConfigureSurface { size: Extent },
    /// Blit the bridge onto the surface and present it.
    Render,
    Exit,
    Nothing,
}

/// The result of checking the schedule before the loop goes idle.
#[derive(Debug, Clone, Copy, PartialEq, Eq, Structural)]
pub struct Tick {
    pub redraw: bool,
    /// Sleep until this time unless an event comes first.
    pub wait_until: u64,
}

pub struct PresentationLoop {
    pub state: LoopState,
    pub frame_interval_ns: u64,
    pub next_tick_ns: u64,
    pub has_bridge: bool,
    /// Surface format the blit pipeline was built for, if it was built.
    pub blit_format: Option<u32>,
}

pub open spec fn sat_add(a: u64, b: u64) -> u64 {
    if a + b > u64::MAX { u64::MAX } else { (a + b) as u64 }
}

fn saturating_add(a: u64, b: u64) -> (r: u64)
    ensures
        r == sat_add(a, b),
{
    if a > u64::MAX - b { u64::MAX } else { a + b }
}

/// How long a consumer waiting for a new frame may block: until the next tick,
/// and never longer than `max_wait`.
pub fn frame_wait_budget(now: u64, next_tick: u64, max_wait: u64) -> (r: u64)
    ensures
        r <= max_wait,
        next_tick <= now ==> r == 0,
        next_tick > now ==> r == if next_tick - now < max_wait { (next_tick - now) as u64 } else { max_wait },
{
    if next_tick <= now {
        0
    } else if next_tick - now < max_wait {
        next_tick - now
    } else {
        max_wait
    }
}

impl PresentationLoop {
    /// A loop that redraws every `frame_interval_ns`; `has_bridge` tells whether
    /// there is an imported bridge to show.
    pub fn new(frame_interval_ns: u64, has_bridge: bool, now: u64) -> (r: PresentationLoop)
        ensures
            r.state == LoopState::Uninitialized,
            r.frame_interval_ns == frame_interval_ns,
            r.next_tick_ns == now,
            r.has_bridge == has_bridge,
            r.blit_format is None,
    {
        PresentationLoop {
            state: LoopState::Uninitialized,
            frame_interval_ns,
            next_tick_ns: now,
            has_bridge,
            blit_format: None,
        }
    }

    /// The window exists once its surface was created, until it is closed.
    pub open spec fn has_window(self) -> bool {
        self.state == LoopState::SurfaceCreated || self.state == LoopState::Ready
    }

    /// Reacts to one event.
    pub fn handle(&mut self, event: LoopEvent) -> (r: LoopAction)
        ensures
            final(self).frame_interval_ns == old(self).frame_interval_ns,
            final(self).has_bridge == old(self).has_bridge,
            final(self).blit_format == old(self).blit_format,
            event == LoopEvent::CloseRequested && old(self).state != LoopState::Closed ==> r == LoopAction::Exit && final(self).state == LoopState::Closed,
            old(self).state == LoopState::Closed ==> r == LoopAction::Nothing && *final(self) == *old(self),
            old(self).state == LoopState::Uninitialized && event == LoopEvent::Resumed ==> r == (
            LoopAction::CreateWindow { size: Extent { width: WINDOW_WIDTH, height: WINDOW_HEIGHT } }),
            old(self).state == LoopState::Uninitialized && event is SurfaceCreated ==> {
                &&& final(self).state == LoopState::SurfaceCreated
                &&& final(self).next_tick_ns == sat_add(event->now, old(self).frame_interval_ns)
                &&& r == if should_configure_spec(event->SurfaceCreated_size) {
                    LoopAction::ConfigureSurface { size: event->SurfaceCreated_size }
                } else {
                    LoopAction::Nothing
                }
            },
            old(self).state == LoopState::SurfaceCreated && event == LoopEvent::SurfaceConfigured ==> final(self).state
                == LoopState::Ready,
            old(self).has_window() && event is Resized ==> {
                &&& final(self).state == old(self).state
                &&& r == if should_configure_spec(event->Resized_size) {
                    LoopAction::ConfigureSurface { size: event->Resized_size }
                } else {
                    LoopAction::Nothing
                }
            },
            old(self).state == LoopState::Ready && event == LoopEvent::RedrawRequested ==> r == if old(self).has_bridge {
                LoopAction::Render
            } else {
                LoopAction::Nothing
            },
            event == LoopEvent::FrameReady && old(self).state != LoopState::Closed ==> r == LoopAction::Nothing
                && *final(self) == *old(self),
            r == LoopAction::Render ==> old(self).state == LoopState::Ready && old(self).has_bridge,
            // events that do not fit the state change nothing
            old(self).state != LoopState::Uninitialized && (event == LoopEvent::Resumed || event is SurfaceCreated)
                ==> r == LoopAction::Nothing && *final(self) == *old(self),
            old(self).state != LoopState::SurfaceCreated && event == LoopEvent::SurfaceConfigured ==> r
                == LoopAction::Nothing && *final(self) == *old(self),
            old(self).state == LoopState::SurfaceCreated && event == LoopEvent::SurfaceConfigured ==> r
                == LoopAction::Nothing,
            !old(self).has_window() && event is Resized ==> r == LoopAction::Nothing && *final(self) == *old(self),
            old(self).state != LoopState::Ready && event == LoopEvent::RedrawRequested ==> r == LoopAction::Nothing
                && *final(self) == *old(self),
            event == LoopEvent::RedrawRequested || event is Resized ==> *final(self) == *old(self),
    {
        if self.state == LoopState::Closed {
            return LoopAction::Nothing;
        }
        match event {
            LoopEvent::CloseRequested => {
                self.state = LoopState::Closed;
                LoopAction::Exit
            },
            LoopEvent::Resumed => {
                if self.state == LoopState::Uninitialized {
                    LoopAction::CreateWindow { size: Extent { width: WINDOW_WIDTH, height: WINDOW_HEIGHT } }
                } else {
                    LoopAction::Nothing
                }
            },
            LoopEvent::SurfaceCreated { size, now } => {
                if self.state != LoopState::Uninitialized {
                    return LoopAction::Nothing;
                }
                self.state = LoopState::SurfaceCreated;
                self.next_tick_ns = saturating_add(now, self.frame_interval_ns);
                if should_configure(size) {
                    LoopAction::ConfigureSurface { size }
                } else {
                    LoopAction::Nothing
                }
            },
            LoopEvent::SurfaceConfigured => {
                if self.state == LoopState::SurfaceCreated {
                    self.state = LoopState::Ready;
                }
                LoopAction::Nothing
            },
            LoopEvent::Resized { size } => {
                if (self.state == LoopState::SurfaceCreated || self.state == LoopState::Ready) && should_configure(size) {
                    LoopAction::ConfigureSurface { size }
                } else {
                    LoopAction::Nothing
                }
            },
            LoopEvent::RedrawRequested => {
                if self.state == LoopState::Ready && self.has_bridge {
                    LoopAction::Render
                } else {
                    LoopAction::Nothing
                }
            },
            LoopEvent::FrameReady => LoopAction::Nothing,
        }
    }

    /// Checks the fixed-interval schedule. When the tick is due, a window that
    /// exists is redrawn and the next tick is one interval later.
    pub fn about_to_wait(&mut self, now: u64) -> (r: Tick)
        ensures
            final(self).state == old(self).state,
            final(self).frame_interval_ns == old(self).frame_interval_ns,
            final(self).has_bridge == old(self).has_bridge,
            final(self).blit_format == old(self).blit_format,
            now >= old(self).next_tick_ns ==> {
                &&& r.redraw == old(self).has_window()
                &&& final(self).next_tick_ns == sat_add(old(self).next_tick_ns, old(self).frame_interval_ns)
            },
            now < old(self).next_tick_ns ==> !r.redraw && final(self).next_tick_ns == old(self).next_tick_ns,
            r.wait_until == final(self).next_tick_ns,
    {
        if now >= self.next_tick_ns {
            let redraw = self.state == LoopState::SurfaceCreated || self.state == LoopState::Ready;
            self.next_tick_ns = saturating_add(self.next_tick_ns, self.frame_interval_ns);
            Tick { redraw, wait_until: self.next_tick_ns }
        } else {
            Tick { redraw: false, wait_until: self.next_tick_ns }
        }
    }

    /// Before a blit onto a surface of `surface_format`: whether the blit
    /// pipeline must be built now. It is built once per surface format.
    pub fn prepare_blit(&mut self, surface_format: u32) -> (build: bool)
        ensures
            build == (old(self).blit_format != Some(surface_format)),
            final(self).blit_format == Some(surface_format),
            final(self).state == old(self).state,
            final(self).next_tick_ns == old(self).next_tick_ns,
            final(self).frame_interval_ns == old(self).frame_interval_ns,
            final(self).has_bridge == old(self).has_bridge,
    {
        let build = match self.blit_format {
            Some(f) => f != surface_format,
            None => true,
        };
        self.blit_format = Some(surface_format);
        build
    }
}

/// The time of the `k`-th redraw of a schedule that starts at `first` and
/// advances by `interval`, as `about_to_wait` advances it.
pub open spec fn tick_time(first: int, interval: int, k: int) -> int {
    first + k * interval
}

/// With redraws every `interval` and bridge updates at least one interval
/// apart, every update made once the schedule has started is presented by a
/// redraw before the next update replaces it.
pub proof fn lemma_every_update_presented(first: int, interval: int, update: int, next_update: int) -> (k: int)
    requires
        interval > 0,
        first <= update,
        next_update - update >= interval,
    ensures
        k >= 0,
        update <= tick_time(first, interval, k) < next_update,
{
    let d = update - first;
    let q = d / interval;
    let r = d % interval;
    assert(d == q * interval + r && 0 <= r < interval) by (nonlinear_arith)
        requires
            interval > 0,
            d >= 0,
            q == d / interval,
            r == d % interval,
    ;
    assert(q >= 0) by (nonlinear_arith)
        requires
            interval > 0,
            d >= 0,
            q == d / interval,
    ;
    if r == 0 {
        q
    } else {
        assert((q + 1) * interval == q * interval + interval) by (nonlinear_arith);
        q + 1
    }
}

} // verus!
