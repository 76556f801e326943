use smelter_vulkan::bridge::{BridgeDescriptor, Extent, PixelFormat};
use smelter_vulkan::copy::{copy_frame_to_bridge, BridgeContents, CopyDecision, CopyError, FrameInfo};

fn frame(id: u64, width: u32, height: u32) -> FrameInfo {
    FrameInfo { id, format: PixelFormat::Rgba8UnormSrgb, extent: Extent { width, height } }
}

fn bridge() -> Option<BridgeContents> {
    Some(BridgeContents::new(BridgeDescriptor::from_resolution(1920, 1080)))
}

#[test]
fn matching_frame_is_copied() {
    let mut b = bridge();
    let r = copy_frame_to_bridge(&mut b, &frame(5, 1920, 1080));
    assert_eq!(r, Ok(CopyDecision::Copy { extent: Extent { width: 1920, height: 1080 } }));
    assert_eq!(b.unwrap().last_frame, Some(5));
}

#[test]
fn mismatched_frame_is_skipped_and_bridge_kept() {
    let mut b = bridge();
    copy_frame_to_bridge(&mut b, &frame(1, 1920, 1080)).unwrap();
    let before = b;
    assert_eq!(copy_frame_to_bridge(&mut b, &frame(2, 1280, 720)), Ok(CopyDecision::SkipMismatch));
    assert_eq!(copy_frame_to_bridge(&mut b, &frame(3, 1920, 1081)), Ok(CopyDecision::SkipMismatch));
    assert_eq!(b, before);
    assert_eq!(b.unwrap().last_frame, Some(1));
}

#[test]
fn copy_without_bridge_is_an_error() {
    let mut b: Option<BridgeContents> = None;
    assert_eq!(copy_frame_to_bridge(&mut b, &frame(1, 1920, 1080)), Err(CopyError::BridgeMissing));
}

#[test]
fn frame_of_other_format_is_skipped() {
    let mut b = bridge();
    let f = FrameInfo { id: 4, format: PixelFormat::Other, extent: Extent { width: 1920, height: 1080 } };
    assert_eq!(copy_frame_to_bridge(&mut b, &f), Ok(CopyDecision::SkipMismatch));
    assert_eq!(b.unwrap().last_frame, None);
}
