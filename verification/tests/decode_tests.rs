use live_captions::decode::{
    select_track, DecodeAction, DecodeError, DecodeEvent, DecodePhase, DecodeSession, TrackInfo,
};

fn track(id: u32, decodable: bool) -> TrackInfo {
    TrackInfo { id, decodable }
}

fn ready_session() -> DecodeSession {
    let mut session = DecodeSession::new(64);
    session.advance(&DecodeEvent::Probed(vec![track(3, true)]));
    session.advance(&DecodeEvent::DecoderReady);
    session
}

#[test]
fn the_first_decodable_track_is_selected() {
    assert_eq!(select_track(&vec![]), None);
    assert_eq!(select_track(&vec![track(0, false), track(1, false)]), None);
    assert_eq!(select_track(&vec![track(7, true)]), Some(0));
    assert_eq!(select_track(&vec![track(0, false), track(4, true), track(5, true)]), Some(1));
}

#[test]
fn only_a_codec_failure_is_fatal() {
    assert!(!DecodeError::PartialFrame.is_fatal());
    assert!(DecodeError::CodecInit.is_fatal());
}

#[test]
fn no_bytes_cannot_be_decoded() {
    let mut session = DecodeSession::new(0);
    assert_eq!(session.action(), DecodeAction::Fail(DecodeError::PartialFrame));
    assert_eq!(session.outcome(), Some(Err(DecodeError::PartialFrame)));
    assert_eq!(
        session.advance(&DecodeEvent::Probed(vec![track(0, true)])),
        DecodeAction::Fail(DecodeError::PartialFrame)
    );
}

#[test]
fn bytes_without_a_format_fail_softly() {
    let mut session = DecodeSession::new(10);
    assert_eq!(session.action(), DecodeAction::Probe);
    assert_eq!(session.outcome(), None);
    assert_eq!(
        session.advance(&DecodeEvent::ProbeFailed),
        DecodeAction::Fail(DecodeError::PartialFrame)
    );
    assert_eq!(session.outcome(), Some(Err(DecodeError::PartialFrame)));
}

#[test]
fn a_stream_without_a_decodable_track_is_fatal() {
    let mut session = DecodeSession::new(10);
    assert_eq!(
        session.advance(&DecodeEvent::Probed(vec![track(0, false)])),
        DecodeAction::Fail(DecodeError::CodecInit)
    );
    let mut empty = DecodeSession::new(10);
    assert_eq!(empty.advance(&DecodeEvent::Probed(vec![])), DecodeAction::Fail(DecodeError::CodecInit));
}

#[test]
fn a_decoder_that_cannot_be_made_is_fatal() {
    let mut session = DecodeSession::new(10);
    assert_eq!(
        session.advance(&DecodeEvent::Probed(vec![track(0, false), track(9, true)])),
        DecodeAction::MakeDecoder { index: 1 }
    );
    assert_eq!(session.phase, DecodePhase::MakingDecoder { index: 1, track: 9 });
    assert_eq!(session.advance(&DecodeEvent::DecoderFailed), DecodeAction::Fail(DecodeError::CodecInit));
    assert_eq!(session.outcome(), Some(Err(DecodeError::CodecInit)));
}

#[test]
fn packets_of_the_selected_track_are_decoded_and_kept() {
    let mut session = ready_session();
    assert_eq!(session.action(), DecodeAction::ReadPacket);
    assert_eq!(session.advance(&DecodeEvent::Packet { track_id: 3 }), DecodeAction::DecodePacket);
    assert_eq!(session.advance(&DecodeEvent::FrameDecoded), DecodeAction::KeepFrame);
    assert_eq!(session.advance(&DecodeEvent::FrameKept), DecodeAction::ReadPacket);
    assert_eq!(session.advance(&DecodeEvent::ReadEnded), DecodeAction::Finish);
    assert_eq!(session.outcome(), Some(Ok(())));
    assert_eq!(session.advance(&DecodeEvent::Packet { track_id: 3 }), DecodeAction::Finish);
}

#[test]
fn packets_of_other_tracks_are_passed_over() {
    let mut session = ready_session();
    assert_eq!(session.advance(&DecodeEvent::Packet { track_id: 4 }), DecodeAction::ReadPacket);
    assert_eq!(session.phase, DecodePhase::Reading { track: 3 });
}

#[test]
fn a_malformed_frame_is_skipped() {
    let mut session = ready_session();
    session.advance(&DecodeEvent::Packet { track_id: 3 });
    assert_eq!(session.advance(&DecodeEvent::FrameMalformed), DecodeAction::ReadPacket);
    assert_eq!(session.outcome(), None);
}

#[test]
fn another_decode_failure_ends_with_what_was_kept() {
    let mut session = ready_session();
    session.advance(&DecodeEvent::Packet { track_id: 3 });
    assert_eq!(session.advance(&DecodeEvent::FrameFailed), DecodeAction::Finish);
    assert_eq!(session.outcome(), Some(Ok(())));
}

#[test]
fn a_required_reset_is_fatal() {
    let mut session = ready_session();
    assert_eq!(session.advance(&DecodeEvent::ResetRequired), DecodeAction::Fail(DecodeError::CodecInit));
}

#[test]
fn an_event_out_of_turn_changes_nothing() {
    let mut session = DecodeSession::new(10);
    assert_eq!(session.advance(&DecodeEvent::FrameDecoded), DecodeAction::Probe);
    assert_eq!(session.advance(&DecodeEvent::DecoderReady), DecodeAction::Probe);
    let mut ready = ready_session();
    assert_eq!(ready.advance(&DecodeEvent::ProbeFailed), DecodeAction::ReadPacket);
    assert_eq!(ready.advance(&DecodeEvent::FrameKept), DecodeAction::ReadPacket);
    ready.advance(&DecodeEvent::Packet { track_id: 3 });
    assert_eq!(ready.advance(&DecodeEvent::ResetRequired), DecodeAction::DecodePacket);
    assert_eq!(ready.advance(&DecodeEvent::ReadEnded), DecodeAction::DecodePacket);
}
