use smelter_vulkan::bridge::{BridgeDescriptor, Extent, PixelFormat};
use smelter_vulkan::channel::{FrameSlot, Receive, SendOutcome};
use smelter_vulkan::copy::{copy_frame_to_bridge, BridgeContents, CopyDecision, FrameInfo};
use smelter_vulkan::presentation::{
    frame_wait_budget, LoopAction, LoopEvent, LoopState, PresentationLoop, DEFAULT_FRAME_WAIT_NS,
};

const MS: u64 = 1_000_000;

fn ready_loop(interval: u64, now: u64) -> PresentationLoop {
    let mut l = PresentationLoop::new(interval, true, now);
    assert_eq!(
        l.handle(LoopEvent::Resumed),
        LoopAction::CreateWindow { size: Extent { width: 1920, height: 1080 } }
    );
    let size = Extent { width: 1920, height: 1080 };
    assert_eq!(l.handle(LoopEvent::SurfaceCreated { size, now }), LoopAction::ConfigureSurface { size });
    assert_eq!(l.state, LoopState::SurfaceCreated);
    l.handle(LoopEvent::SurfaceConfigured);
    assert_eq!(l.state, LoopState::Ready);
    l
}

#[test]
fn window_lifecycle() {
    let mut l = ready_loop(16 * MS, 0);
    assert_eq!(l.next_tick_ns, 16 * MS);
    assert_eq!(l.handle(LoopEvent::RedrawRequested), LoopAction::Render);
    assert_eq!(l.handle(LoopEvent::FrameReady), LoopAction::Nothing);
    let small = Extent { width: 640, height: 480 };
    assert_eq!(l.handle(LoopEvent::Resized { size: small }), LoopAction::ConfigureSurface { size: small });
    assert_eq!(l.handle(LoopEvent::Resized { size: Extent { width: 0, height: 0 } }), LoopAction::Nothing);
    assert_eq!(l.handle(LoopEvent::CloseRequested), LoopAction::Exit);
    assert_eq!(l.state, LoopState::Closed);
    assert_eq!(l.handle(LoopEvent::RedrawRequested), LoopAction::Nothing);
}

#[test]
fn no_render_without_bridge() {
    let mut l = PresentationLoop::new(16 * MS, false, 0);
    l.handle(LoopEvent::SurfaceCreated { size: Extent { width: 100, height: 100 }, now: 0 });
    l.handle(LoopEvent::SurfaceConfigured);
    assert_eq!(l.handle(LoopEvent::RedrawRequested), LoopAction::Nothing);
}

#[test]
fn schedule_advances_by_one_interval() {
    let mut l = ready_loop(10 * MS, 0);
    let t = l.about_to_wait(5 * MS);
    assert!(!t.redraw);
    assert_eq!(t.wait_until, 10 * MS);
    let t = l.about_to_wait(10 * MS);
    assert!(t.redraw);
    assert_eq!(t.wait_until, 20 * MS);
    let t = l.about_to_wait(u64::MAX);
    assert!(t.redraw);
    assert_eq!(t.wait_until, 30 * MS);
}

#[test]
fn schedule_saturates_at_end_of_clock() {
    let mut l = PresentationLoop::new(10, true, u64::MAX - 5);
    let t = l.about_to_wait(u64::MAX);
    assert!(!t.redraw);
    assert_eq!(t.wait_until, u64::MAX);
}

#[test]
fn blit_pipeline_built_once_per_format() {
    let mut l = ready_loop(10 * MS, 0);
    assert!(l.prepare_blit(7));
    assert!(!l.prepare_blit(7));
    assert!(l.prepare_blit(9));
}

#[test]
fn wait_is_bounded_by_timeout() {
    assert_eq!(frame_wait_budget(0, 16 * MS, DEFAULT_FRAME_WAIT_NS), 16 * MS);
    assert_eq!(frame_wait_budget(0, 5_000 * MS, DEFAULT_FRAME_WAIT_NS), 100 * MS);
    assert_eq!(frame_wait_budget(20 * MS, 16 * MS, DEFAULT_FRAME_WAIT_NS), 0);
}

/// Producer at 30 frames per second into a 1920x1080 bridge, presentation at a
/// fixed 60 ticks per second: every bridge update is presented, and a stalled
/// producer never makes the consumer wait longer than the timeout.
#[test]
fn thirty_fps_producer_sixty_tick_consumer() {
    let producer_interval = 1_000_000_000u64 / 30;
    let tick_interval = 1_000_000_000u64 / 60;
    let mut slot: FrameSlot<FrameInfo> = FrameSlot::new();
    let mut bridge = Some(BridgeContents::new(BridgeDescriptor::from_resolution(1920, 1080)));
    let mut l = ready_loop(tick_interval, 0);
    let mut presented: Vec<u64> = Vec::new();
    let mut copied: Vec<u64> = Vec::new();
    let mut next_frame_at = 0u64;
    let mut next_id = 0u64;
    let mut now = 0u64;
    while now <= 2_000_000_000 {
        let stalled = now > 1_000_000_000;
        if !stalled && now >= next_frame_at {
            let f = FrameInfo {
                id: next_id,
                format: PixelFormat::Rgba8UnormSrgb,
                extent: Extent { width: 1920, height: 1080 },
            };
            assert!(matches!(slot.try_send(f), SendOutcome::Delivered));
            next_id += 1;
            next_frame_at += producer_interval;
        }
        if let Receive::Frame(f) = slot.try_receive() {
            if copy_frame_to_bridge(&mut bridge, &f) == Ok(CopyDecision::Copy { extent: f.extent }) {
                copied.push(f.id);
            }
        }
        let tick = l.about_to_wait(now);
        if tick.redraw && l.handle(LoopEvent::RedrawRequested) == LoopAction::Render {
            if let Some(id) = bridge.unwrap().last_frame {
                if presented.last() != Some(&id) {
                    presented.push(id);
                }
            }
        }
        assert!(frame_wait_budget(now, l.next_tick_ns, DEFAULT_FRAME_WAIT_NS) <= DEFAULT_FRAME_WAIT_NS);
        now += MS;
    }
    assert!(copied.len() >= 30);
    for id in &copied {
        assert!(presented.contains(id));
    }
}
