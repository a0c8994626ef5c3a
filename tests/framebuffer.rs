use rdp_core::framebuffer::{pixel_records, FrameError, RDPSharedFramebuffer};

fn frame(w: u16, h: u16, fill: u8) -> Vec<u8> {
    vec![fill; w as usize * h as usize * 4]
}

#[test]
fn three_publishes_then_one_read_sees_the_third() {
    let mut fb = RDPSharedFramebuffer::default();
    assert!(fb.image.is_none());
    assert_eq!(fb.publish(2, 2, frame(2, 2, 1)), Ok(()));
    assert_eq!(fb.publish(3, 1, frame(3, 1, 2)), Ok(()));
    assert_eq!(fb.publish(1, 4, frame(1, 4, 3)), Ok(()));
    let latest = fb.take_latest().unwrap();
    assert_eq!(latest, frame(1, 4, 3));
    assert_eq!((fb.width, fb.height), (1, 4));
    assert!(fb.take_latest().is_none());
}

#[test]
fn mismatched_frame_is_refused_and_slot_kept() {
    let mut fb = RDPSharedFramebuffer::default();
    assert_eq!(fb.publish(2, 1, frame(2, 1, 9)), Ok(()));
    assert_eq!(fb.publish(2, 2, vec![0; 10]), Err(FrameError::PartialPixel { len: 10 }));
    assert_eq!(
        fb.publish(2, 2, vec![0; 12]),
        Err(FrameError::SizeMismatch { width: 2, height: 2, len: 12 })
    );
    assert_eq!((fb.width, fb.height), (2, 1));
    assert_eq!(fb.take_latest(), Some(frame(2, 1, 9)));
}

#[test]
fn empty_frame_is_whole() {
    let mut fb = RDPSharedFramebuffer::default();
    assert_eq!(fb.publish(0, 5, Vec::new()), Ok(()));
    assert_eq!(fb.take_latest(), Some(Vec::new()));
}

#[test]
fn pixel_records_in_order() {
    let bytes: Vec<u8> = (0u8..8).collect();
    let px = pixel_records(&bytes, 2, 1).unwrap();
    assert_eq!(px, vec![[0, 1, 2, 3], [4, 5, 6, 7]]);
}

#[test]
fn pixel_records_validate_length() {
    assert_eq!(pixel_records(&vec![0; 7], 1, 2), Err(FrameError::PartialPixel { len: 7 }));
    assert_eq!(
        pixel_records(&vec![0; 4], 1, 2),
        Err(FrameError::SizeMismatch { width: 1, height: 2, len: 4 })
    );
    assert_eq!(pixel_records(&Vec::new(), 0, 0), Ok(Vec::new()));
}

#[test]
fn largest_frame_size_is_checked_without_overflow() {
    assert_eq!(
        pixel_records(&vec![0; 8], 65535, 65535),
        Err(FrameError::SizeMismatch { width: 65535, height: 65535, len: 8 })
    );
}
