use letsplay_av::session::{
    frame_stamp, EncodeSession, EncodeThreadInput, FrameStamp, PictureType, SessionAction,
    FRAME_FLAG_KEY,
};
use letsplay_av::types::Size;

fn stamp_of(action: SessionAction) -> FrameStamp {
    match action {
        SessionAction::Encode { stamp } => stamp,
        other => panic!("expected an encode action, got {:?}", other),
    }
}

#[test]
fn stamp_forced_keyframe() {
    let s = frame_stamp(7, true);
    assert_eq!(s, FrameStamp { pts: 7, picture_type: PictureType::I, flags: FRAME_FLAG_KEY, key_frame: 1 });
    assert_eq!(FRAME_FLAG_KEY, 1 << 1);
}

#[test]
fn stamp_plain_frame() {
    let s = frame_stamp(3, false);
    assert_eq!(s, FrameStamp { pts: 3, picture_type: PictureType::Unspecified, flags: 0, key_frame: 0 });
}

#[test]
fn send_before_init_does_nothing() {
    let mut s = EncodeSession::new();
    assert_eq!(s.handle(EncodeThreadInput::SendFrame), SessionAction::Idle);
    assert_eq!(s.frame_number, 0);
}

#[test]
fn init_asks_for_rebuild_and_resets() {
    let mut s = EncodeSession::new();
    let size = Size { width: 64, height: 48 };
    assert_eq!(s.handle(EncodeThreadInput::Init { size }), SessionAction::Rebuild { size });
    s.handle(EncodeThreadInput::ForceKeyframe);
    s.handle(EncodeThreadInput::SendFrame);
    s.finish_frame(true);
    s.handle(EncodeThreadInput::ForceKeyframe);
    let other = Size { width: 32, height: 32 };
    assert_eq!(s.handle(EncodeThreadInput::Init { size: other }), SessionAction::Rebuild { size: other });
    assert_eq!(s.frame_number, 0);
    assert!(!s.force_keyframe);
    assert_eq!(s.size, Some(other));
}

#[test]
fn timestamps_increase_without_gaps_in_submission_order() {
    let mut s = EncodeSession::new();
    s.handle(EncodeThreadInput::Init { size: Size { width: 16, height: 16 } });
    let outcomes = [false, true, true, false, true, true];
    let mut stamps = Vec::new();
    for emitted in outcomes {
        let stamp = stamp_of(s.handle(EncodeThreadInput::SendFrame));
        stamps.push(stamp.pts);
        assert_eq!(s.finish_frame(emitted), emitted);
    }
    assert_eq!(stamps, vec![0, 0, 1, 2, 2, 3]);
    assert_eq!(s.frame_number, 4);
}

#[test]
fn every_cycle_emitting_gives_consecutive_timestamps() {
    let mut s = EncodeSession::new();
    s.handle(EncodeThreadInput::Init { size: Size { width: 8, height: 8 } });
    for expected in 0u64..10 {
        let stamp = stamp_of(s.handle(EncodeThreadInput::SendFrame));
        assert_eq!(stamp.pts, expected);
        s.finish_frame(true);
    }
}

#[test]
fn forced_keyframe_marks_next_frame_and_is_cleared() {
    let mut s = EncodeSession::new();
    s.handle(EncodeThreadInput::Init { size: Size { width: 8, height: 8 } });
    assert_eq!(s.handle(EncodeThreadInput::ForceKeyframe), SessionAction::Idle);
    let stamp = stamp_of(s.handle(EncodeThreadInput::SendFrame));
    assert_eq!(stamp.picture_type, PictureType::I);
    assert_eq!(stamp.key_frame, 1);
    assert_eq!(stamp.flags, FRAME_FLAG_KEY);
    // No packet this cycle: the flag is still cleared.
    s.finish_frame(false);
    assert!(!s.force_keyframe);
    let next = stamp_of(s.handle(EncodeThreadInput::SendFrame));
    assert_eq!(next.picture_type, PictureType::Unspecified);
    assert_eq!(next.key_frame, 0);
    assert_eq!(next.flags, 0);
}
