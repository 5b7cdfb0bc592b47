use trichloride::capture::{BorrowedFrame, CameraEvent, CaptureState, Effect, Frame};
use trichloride::vex::{Tricrideo, Vex};

#[test]
fn grey_cycles_channels() {
    // One pixel, starting from a black composite. The grayscale average of
    // (30, 60, 90) is 60; the old red channel (0) moves into green and blue.
    let mut fx = Tricrideo::new(1, 1);
    let incoming = vec![30u8, 60, 90];
    let frame = BorrowedFrame { data: &incoming, width: 1, height: 1 };
    let out = fx.effect(frame);
    assert_eq!(out.data, &[60, 0, 0]);

    // A second frame of (90, 90, 90): average 90; the previous red (60)
    // moves into green and blue.
    let incoming2 = vec![90u8, 90, 90];
    let frame2 = BorrowedFrame { data: &incoming2, width: 1, height: 1 };
    let out2 = fx.effect(frame2);
    assert_eq!(out2.data, &[90, 60, 60]);
}

#[test]
fn colour_refreshes_one_channel_per_frame() {
    let mut fx = Tricrideo::new(1, 1);
    fx.set_coloured(true);
    let a = vec![10u8, 20, 30];
    let out = fx.effect(BorrowedFrame { data: &a, width: 1, height: 1 });
    // First frame refreshes the red channel only.
    assert_eq!(out.data, &[10, 0, 0]);
    let b = vec![40u8, 50, 60];
    let out2 = fx.effect(BorrowedFrame { data: &b, width: 1, height: 1 });
    // Second frame refreshes the green channel only.
    assert_eq!(out2.data, &[10, 50, 0]);
    let c = vec![70u8, 80, 90];
    let out3 = fx.effect(BorrowedFrame { data: &c, width: 1, height: 1 });
    // Third frame refreshes the blue channel; the cycle then restarts.
    assert_eq!(out3.data, &[10, 50, 90]);
    let d = vec![11u8, 12, 13];
    let out4 = fx.effect(BorrowedFrame { data: &d, width: 1, height: 1 });
    assert_eq!(out4.data, &[11, 50, 90]);
}

#[test]
fn from_frame_primes_the_composite() {
    let primed = Frame { data: vec![1u8, 2, 3], width: 1, height: 1 };
    let mut fx = Tricrideo::from_frame(primed);
    let out = fx.frame_out();
    assert_eq!(out.data, &[1, 2, 3]);
    let back = fx.into_frame();
    assert_eq!(back.data, vec![1, 2, 3]);
    assert_eq!(back.width, 1);
    assert_eq!(back.height, 1);
}

#[test]
fn frame_borrow_and_to_owned_round_trip() {
    let f = Frame { data: vec![9u8, 8, 7], width: 1, height: 1 };
    let b = f.borrow();
    assert_eq!(b.data, &[9, 8, 7]);
    assert_eq!(b.width, 1);
    assert_eq!(b.height, 1);
    let owned = b.to_owned();
    assert_eq!(owned.data, vec![9, 8, 7]);
}

#[test]
fn capture_state_transitions() {
    let mut st = CaptureState::new();
    assert!(!st.recording);
    assert!(!st.shutdown);
    assert_eq!(st.effect, Effect::Normal);

    st.apply_event(&CameraEvent::RecordingStarted);
    assert!(st.recording);
    st.apply_event(&CameraEvent::ChangeEffect(Effect::TricrideoColour));
    assert_eq!(st.effect, Effect::TricrideoColour);
    assert!(st.recording);
    st.apply_event(&CameraEvent::RecordingStopped);
    assert!(!st.recording);
    st.apply_event(&CameraEvent::Shutdown);
    assert!(st.shutdown);
    // Shutdown is sticky across later events.
    st.apply_event(&CameraEvent::RecordingStarted);
    assert!(st.shutdown);
    assert!(st.recording);
}
