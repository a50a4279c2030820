use rtc_session::errors::{flatten_errs, Error};
use rtc_session::receiver::{
    start_encodings, BindingPlan, RTCRtpDecodingParameters, RTCRtpReceiveParameters,
    RTCRtpReceiver, RTCRtpRtxParameters, RTPCodecType, ReadPoll, StopAction, TrackDetails,
    TrackStream,
};

fn encoding(ssrc: u32, rid: &str, rtx_ssrc: u32) -> RTCRtpDecodingParameters {
    RTCRtpDecodingParameters {
        ssrc,
        rid: rid.to_owned(),
        rtx: RTCRtpRtxParameters { ssrc: rtx_ssrc },
    }
}

fn pipeline(base: u64) -> TrackStream {
    TrackStream {
        stream_info: Some(base),
        rtp_read_stream: Some(base + 1),
        rtp_interceptor: Some(base + 2),
        rtcp_read_stream: Some(base + 3),
        rtcp_interceptor: Some(base + 4),
    }
}

fn unbound() -> TrackStream {
    TrackStream {
        stream_info: None,
        rtp_read_stream: None,
        rtp_interceptor: None,
        rtcp_read_stream: None,
        rtcp_interceptor: None,
    }
}

#[test]
fn receive_plans_bindings_per_encoding() {
    let mut r = RTCRtpReceiver::new(1500, RTPCodecType::Video);
    assert!(!r.have_received());
    let params = RTCRtpReceiveParameters {
        encodings: vec![encoding(10, "a", 99), encoding(0, "b", 0)],
    };
    let plans = r.receive(&params).unwrap();
    assert!(r.have_received());
    assert_eq!(
        plans,
        vec![
            BindingPlan { ssrc: Some(10), rtx_ssrc: Some(99) },
            BindingPlan { ssrc: None, rtx_ssrc: None },
        ]
    );
}

#[test]
fn receive_twice_fails_and_keeps_tracks() {
    let mut r = RTCRtpReceiver::new(1500, RTPCodecType::Audio);
    let params = RTCRtpReceiveParameters { encodings: vec![encoding(10, "a", 0)] };
    assert!(r.receive(&params).is_ok());
    r.add_track(&params.encodings[0], pipeline(100));
    assert_eq!(r.tracks().len(), 1);

    let again = RTCRtpReceiveParameters { encodings: vec![encoding(20, "b", 0)] };
    assert_eq!(r.receive(&again), Err(Error::ErrRTPReceiverReceiveAlreadyCalled));
    let tracks = r.tracks();
    assert_eq!(tracks.len(), 1);
    assert_eq!(tracks[0].ssrc, 10);
    assert_eq!(tracks[0].rid, "a");
}

#[test]
fn track_returns_the_sole_track_only() {
    let mut r = RTCRtpReceiver::new(1200, RTPCodecType::Video);
    assert!(r.track().is_none());
    let params = RTCRtpReceiveParameters {
        encodings: vec![encoding(1, "q", 0), encoding(2, "w", 0)],
    };
    assert!(r.receive(&params).is_ok());
    r.add_track(&params.encodings[0], unbound());
    let only = r.track().unwrap();
    assert_eq!(only.ssrc, 1);
    assert_eq!(only.rid, "q");
    assert_eq!(only.kind, RTPCodecType::Video);
    assert_eq!(only.receive_mtu, 1200);
    assert_eq!(only.id, "");
    r.add_track(&params.encodings[1], unbound());
    assert!(r.track().is_none());
    assert_eq!(r.tracks().len(), 2);
}

#[test]
fn stop_before_receive_has_no_side_effects() {
    let mut r = RTCRtpReceiver::new(1500, RTPCodecType::Audio);
    let first = r.stop();
    assert!(first.is_empty());
    assert_eq!(flatten_errs(Vec::new()), Ok(()));
    let second = r.stop();
    assert!(second.is_empty());
    assert!(r.tracks().is_empty());
    assert!(!r.have_received());
}

#[test]
fn stop_after_receive_schedules_every_close_and_unbind() {
    let mut r = RTCRtpReceiver::new(1500, RTPCodecType::Video);
    let params = RTCRtpReceiveParameters { encodings: vec![encoding(10, "a", 77)] };
    assert!(r.receive(&params).is_ok());
    r.add_track(&params.encodings[0], pipeline(100));
    assert_eq!(r.receive_for_rtx(77, "", pipeline(200)), Ok(Some(202)));

    let actions = r.stop();
    assert_eq!(
        actions,
        vec![
            StopAction::CloseStream(103),
            StopAction::CloseStream(101),
            StopAction::CloseStream(203),
            StopAction::CloseStream(201),
            StopAction::UnbindStream(100),
            StopAction::UnbindStream(200),
        ]
    );
    let again = r.stop();
    assert_eq!(again, actions);
}

#[test]
fn aggregated_close_failures_combine_into_one_error() {
    let errs = vec!["close a failed".to_owned(), "close b failed".to_owned()];
    assert_eq!(flatten_errs(errs.clone()), Err(Error::ErrAggregate(errs)));
}

#[test]
fn rtx_attaches_to_sole_track_unconditionally() {
    let mut r = RTCRtpReceiver::new(1500, RTPCodecType::Video);
    let params = RTCRtpReceiveParameters { encodings: vec![encoding(10, "a", 55)] };
    assert!(r.receive(&params).is_ok());
    r.add_track(&params.encodings[0], unbound());
    // the RID does not match, but a sole track takes any nonzero repair SSRC
    assert_eq!(r.receive_for_rtx(55, "zzz", pipeline(300)), Ok(Some(302)));
}

#[test]
fn rtx_matches_by_rid_among_several_tracks() {
    let mut r = RTCRtpReceiver::new(1500, RTPCodecType::Video);
    let params = RTCRtpReceiveParameters {
        encodings: vec![encoding(1, "lo", 0), encoding(2, "hi", 0)],
    };
    assert!(r.receive(&params).is_ok());
    r.add_track(&params.encodings[0], unbound());
    r.add_track(&params.encodings[1], unbound());
    assert_eq!(r.receive_for_rtx(9, "hi", pipeline(400)), Ok(Some(402)));
    assert_eq!(
        r.receive_for_rtx(9, "nope", pipeline(500)),
        Err(Error::ErrRTPReceiverForRIDTrackStreamNotFound)
    );
}

#[test]
fn read_blocks_until_receive_and_fails_after_stop() {
    let mut r = RTCRtpReceiver::new(1500, RTPCodecType::Audio);
    assert_eq!(r.poll_read(), ReadPoll::Block);
    let params = RTCRtpReceiveParameters { encodings: vec![encoding(10, "a", 0)] };
    assert!(r.receive(&params).is_ok());
    r.add_track(&params.encodings[0], pipeline(100));
    assert_eq!(r.poll_read(), ReadPoll::ReadFrom(104));
    // a blocked or fresh read observes stop as a closed pipe at once
    r.stop();
    assert_eq!(r.poll_read(), ReadPoll::Fail(Error::ErrClosedPipe));
    assert_eq!(r.poll_read_simulcast("a"), ReadPoll::Fail(Error::ErrClosedPipe));
}

#[test]
fn read_without_any_track_fails() {
    let mut r = RTCRtpReceiver::new(1500, RTPCodecType::Audio);
    let params = RTCRtpReceiveParameters { encodings: vec![] };
    assert!(r.receive(&params).is_ok());
    assert_eq!(r.poll_read(), ReadPoll::Fail(Error::ErrExistingTrack));
}

#[test]
fn read_with_unbound_interceptor_is_not_ready() {
    let mut r = RTCRtpReceiver::new(1500, RTPCodecType::Video);
    let params = RTCRtpReceiveParameters { encodings: vec![encoding(0, "r1", 0)] };
    assert!(r.receive(&params).is_ok());
    r.add_track(&params.encodings[0], unbound());
    assert_eq!(r.poll_read(), ReadPoll::Fail(Error::ErrInterceptorNotBind));
    assert_eq!(r.poll_read_simulcast("r1"), ReadPoll::Fail(Error::ErrInterceptorNotBind));
}

#[test]
fn read_simulcast_filters_by_rid() {
    let mut r = RTCRtpReceiver::new(1500, RTPCodecType::Video);
    let params = RTCRtpReceiveParameters { encodings: vec![encoding(10, "r1", 0)] };
    assert!(r.receive(&params).is_ok());
    r.add_track(&params.encodings[0], pipeline(100));
    assert_eq!(
        r.poll_read_simulcast("nope"),
        ReadPoll::Fail(Error::ErrRTPReceiverForRIDTrackStreamNotFound)
    );
    assert_eq!(r.poll_read_simulcast("r1"), ReadPoll::ReadFrom(104));
}

#[test]
fn start_helper_zips_ssrcs_and_shares_repair_ssrc() {
    let details = TrackDetails {
        id: "track-id".to_owned(),
        stream_id: "stream-id".to_owned(),
        ssrcs: vec![10, 20],
        rids: vec![],
        repair_ssrc: 99,
    };
    let encodings = start_encodings(&details);
    assert_eq!(encodings.len(), 2);
    assert_eq!(encodings[0].ssrc, 10);
    assert_eq!(encodings[0].rid, "");
    assert_eq!(encodings[0].rtx.ssrc, 99);
    assert_eq!(encodings[1].ssrc, 20);
    assert_eq!(encodings[1].rid, "");
    assert_eq!(encodings[1].rtx.ssrc, 99);
}

#[test]
fn start_helper_pads_missing_ssrcs_with_zero() {
    let details = TrackDetails {
        id: String::new(),
        stream_id: String::new(),
        ssrcs: vec![5],
        rids: vec!["lo".to_owned(), "hi".to_owned(), "max".to_owned()],
        repair_ssrc: 0,
    };
    let encodings = start_encodings(&details);
    assert_eq!(encodings.len(), 3);
    assert_eq!(encodings[0].ssrc, 5);
    assert_eq!(encodings[0].rid, "lo");
    assert_eq!(encodings[1].ssrc, 0);
    assert_eq!(encodings[1].rid, "hi");
    assert_eq!(encodings[2].ssrc, 0);
    assert_eq!(encodings[2].rid, "max");
    assert_eq!(encodings[2].rtx.ssrc, 0);
}

#[test]
fn set_track_ids_backfills_every_track() {
    let mut r = RTCRtpReceiver::new(1500, RTPCodecType::Video);
    let params = RTCRtpReceiveParameters {
        encodings: vec![encoding(1, "lo", 0), encoding(2, "hi", 0)],
    };
    assert!(r.receive(&params).is_ok());
    r.add_track(&params.encodings[0], unbound());
    r.add_track(&params.encodings[1], unbound());
    r.set_track_ids("the-track", "the-stream");
    for t in r.tracks() {
        assert_eq!(t.id, "the-track");
        assert_eq!(t.stream_id, "the-stream");
    }
}

#[test]
fn transceiver_codecs_slot_is_replaceable() {
    let mut r = RTCRtpReceiver::new(1500, RTPCodecType::Audio);
    assert_eq!(r.kind(), RTPCodecType::Audio);
    r.set_transceiver_codecs(Some(4));
    assert_eq!(r.transceiver_codecs, Some(4));
    r.set_transceiver_codecs(None);
    assert_eq!(r.transceiver_codecs, None);
}
