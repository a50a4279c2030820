use vstd::prelude::*;

use crate::errors::Error;

verus! {

/// A synchronization source identifier; zero means "not yet known".
pub type SSRC = u32;

/// The media kind a receiver serves.
#[derive(Clone, Copy, Debug, PartialEq, Eq, Structural)]
pub enum RTPCodecType {
    Unspecified,
    Audio,
    Video,
}

/// The retransmission half of an encoding: the SSRC its repair stream uses.
#[derive(Clone, Copy, Debug, PartialEq, Eq, Structural)]
pub struct RTCRtpRtxParameters {
    pub ssrc: SSRC,
}

/// One per-encoding descriptor handed to `receive`: a primary SSRC (zero when
/// it is still to be learned), a restriction identifier for simulcast, and
/// the repair-stream parameters.
#[derive(Debug)]
pub struct RTCRtpDecodingParameters {
    pub ssrc: SSRC,
    pub rid: String,
    pub rtx: RTCRtpRtxParameters,
}

/// The ordered encodings a caller asks a receiver to serve.
#[derive(Debug)]
pub struct RTCRtpReceiveParameters {
    pub encodings: Vec<RTCRtpDecodingParameters>,
}

/// One bound read pipeline. Every entry is an opaque handle under which the
/// caller keeps the real object (stream descriptor, readers, interceptor
/// capabilities); `None` means that part was never bound.
#[derive(Clone, Copy, Debug, PartialEq, Eq, Structural)]
pub struct TrackStream {
    pub stream_info: Option<u64>,
    pub rtp_read_stream: Option<u64>,
    pub rtp_interceptor: Option<u64>,
    pub rtcp_read_stream: Option<u64>,
    pub rtcp_interceptor: Option<u64>,
}

/// The pipeline with nothing bound.
pub open spec fn empty_track_stream() -> TrackStream {
    TrackStream {
        stream_info: None,
        rtp_read_stream: None,
        rtp_interceptor: None,
        rtcp_read_stream: None,
        rtcp_interceptor: None,
    }
}

/// One inbound media track as the application sees it.
#[derive(Debug)]
pub struct TrackRemote {
    pub receive_mtu: usize,
    pub kind: RTPCodecType,
    pub ssrc: SSRC,
    pub rid: String,
    pub id: String,
    pub stream_id: String,
}

impl Clone for TrackRemote {
    fn clone(&self) -> (r: Self)
        ensures
            r == *self,
    {
        TrackRemote {
            receive_mtu: self.receive_mtu,
            kind: self.kind,
            ssrc: self.ssrc,
            rid: self.rid.clone(),
            id: self.id.clone(),
            stream_id: self.stream_id.clone(),
        }
    }
}

/// One logical track together with its primary pipeline and its repair
/// (retransmission) pipeline.
#[derive(Debug)]
pub struct TrackStreams {
    pub track: TrackRemote,
    pub stream: TrackStream,
    pub repair_stream: TrackStream,
}

/// What a caller must do for one encoding after `receive` accepted it: bind
/// a primary pipeline for `ssrc` if it is set, and a repair pipeline for
/// `rtx_ssrc` if that is set. A `None` means binding is deferred.
#[derive(Clone, Copy, Debug, PartialEq, Eq, Structural)]
pub struct BindingPlan {
    pub ssrc: Option<SSRC>,
    pub rtx_ssrc: Option<SSRC>,
}

/// The plan for one encoding: a zero SSRC defers binding until the SSRC is
/// learned, and a zero repair SSRC means no repair stream is declared.
pub open spec fn plan_for(e: RTCRtpDecodingParameters) -> BindingPlan {
    BindingPlan {
        ssrc: if e.ssrc != 0 {
            Some(e.ssrc)
        } else {
            None
        },
        rtx_ssrc: if e.rtx.ssrc != 0 {
            Some(e.rtx.ssrc)
        } else {
            None
        },
    }
}

/// What `poll_read` decides from the receiver's state: wait (nothing has
/// been received yet and the receiver is not stopped), fail with the given
/// error, or read from the RTCP interceptor behind the given handle.
#[derive(Clone, Debug, PartialEq, Eq)]
pub enum ReadPoll {
    Block,
    Fail(Error),
    ReadFrom(u64),
}

/// One teardown step `stop` asks its caller to perform: close the read
/// stream, or unbind the stream descriptor from the interceptor chain,
/// behind the given handle.
#[derive(Clone, Copy, Debug, PartialEq, Eq, Structural)]
pub enum StopAction {
    CloseStream(u64),
    UnbindStream(u64),
}

pub open spec fn opt_close(o: Option<u64>) -> Seq<StopAction> {
    match o {
        Some(h) => seq![StopAction::CloseStream(h)],
        None => Seq::empty(),
    }
}

pub open spec fn opt_unbind(o: Option<u64>) -> Seq<StopAction> {
    match o {
        Some(h) => seq![StopAction::UnbindStream(h)],
        None => Seq::empty(),
    }
}

/// The teardown steps for one track: close both read streams of the primary
/// and of the repair pipeline, then unbind both stream descriptors. Every
/// bound part gets a close attempt regardless of earlier failures.
pub open spec fn track_stop_actions(t: TrackStreams) -> Seq<StopAction> {
    opt_close(t.stream.rtcp_read_stream) + opt_close(t.stream.rtp_read_stream) + opt_close(
        t.repair_stream.rtcp_read_stream,
    ) + opt_close(t.repair_stream.rtp_read_stream) + opt_unbind(t.stream.stream_info) + opt_unbind(
        t.repair_stream.stream_info,
    )
}

/// The teardown steps for a whole track collection, in track order.
pub open spec fn stop_actions(tracks: Seq<TrackStreams>) -> Seq<StopAction>
    decreases tracks.len(),
{
    if tracks.len() == 0 {
        Seq::empty()
    } else {
        stop_actions(tracks.drop_last()) + track_stop_actions(tracks.last())
    }
}

/// The decision for a RID-filtered read over a track collection: the first
/// track whose RID matches serves the read if its RTCP interceptor is bound,
/// fails it as not-bound otherwise; with no matching track the read fails as
/// not-found.
pub open spec fn rid_poll(tracks: Seq<TrackStreams>, rid: Seq<char>) -> ReadPoll
    decreases tracks.len(),
{
    if tracks.len() == 0 {
        ReadPoll::Fail(Error::ErrRTPReceiverForRIDTrackStreamNotFound)
    } else if tracks.first().track.rid@ == rid {
        match tracks.first().stream.rtcp_interceptor {
            Some(h) => ReadPoll::ReadFrom(h),
            None => ReadPoll::Fail(Error::ErrInterceptorNotBind),
        }
    } else {
        rid_poll(tracks.drop_first(), rid)
    }
}

/// The inbound stream receiver: it owns the track collection, the one-shot
/// "receive was called" gate, and the stop signal. Binding a pipeline and
/// reading from it are asynchronous work done by the caller against opaque
/// handles; every decision about them is made here.
#[derive(Debug)]
pub struct RTCRtpReceiver {
    pub receive_mtu: usize,
    pub kind: RTPCodecType,
    /// The consumed state of the one-shot gate: `receive` may run only once.
    pub received: bool,
    /// The broadcast stop signal: once set, blocked reads fail as closed.
    pub stopped: bool,
    pub tracks: Vec<TrackStreams>,
    /// An opaque handle to the negotiated codec set shared with the
    /// transceiver, if one was attached.
    pub transceiver_codecs: Option<u64>,
}

impl RTCRtpReceiver {
    /// The receiver state once `receive` has run: the one-shot flag is set,
    /// and any later call finds it set and changes nothing.
    pub open spec fn spec_receive_state(self) -> Self {
        if self.received {
            self
        } else {
            RTCRtpReceiver { received: true, ..self }
        }
    }

    /// The receiver state after `stop`, whether or not anything was bound.
    pub open spec fn spec_stop_state(self) -> Self {
        RTCRtpReceiver { stopped: true, ..self }
    }

    /// The teardown steps `stop` hands out: none when `receive` never ran.
    pub open spec fn spec_stop_actions(self) -> Seq<StopAction> {
        if self.received {
            stop_actions(self.tracks@)
        } else {
            Seq::empty()
        }
    }

    /// Whether the track at index `i` is where a repair stream with the
    /// given SSRC and RID attaches: a sole track takes any nonzero repair
    /// SSRC unconditionally; otherwise the RID must match.
    pub open spec fn rtx_match(self, i: int, ssrc: SSRC, rsid: Seq<char>) -> bool {
        (ssrc != 0 && self.tracks@.len() == 1) || self.tracks@[i].track.rid@ == rsid
    }

    /// The decision for an unfiltered read: stop always wins; before
    /// `receive` has run the caller must keep waiting; then the sole first
    /// track serves the read through its bound RTCP interceptor.
    pub open spec fn spec_poll_read(self) -> ReadPoll {
        if self.stopped {
            ReadPoll::Fail(Error::ErrClosedPipe)
        } else if !self.received {
            ReadPoll::Block
        } else if self.tracks@.len() == 0 {
            ReadPoll::Fail(Error::ErrExistingTrack)
        } else {
            match self.tracks@[0].stream.rtcp_interceptor {
                Some(h) => ReadPoll::ReadFrom(h),
                None => ReadPoll::Fail(Error::ErrInterceptorNotBind),
            }
        }
    }

    /// The decision for a RID-filtered read; the stop signal and the
    /// one-shot flag take precedence, as in `spec_poll_read`.
    pub open spec fn spec_poll_read_simulcast(self, rid: Seq<char>) -> ReadPoll {
        if self.stopped {
            ReadPoll::Fail(Error::ErrClosedPipe)
        } else if !self.received {
            ReadPoll::Block
        } else {
            rid_poll(self.tracks@, rid)
        }
    }

    pub fn new(receive_mtu: usize, kind: RTPCodecType) -> (r: Self)
        ensures
            r.receive_mtu == receive_mtu,
            r.kind == kind,
            !r.received,
            !r.stopped,
            r.tracks@ == Seq::<TrackStreams>::empty(),
            r.transceiver_codecs is None,
    {
        RTCRtpReceiver {
            receive_mtu,
            kind,
            received: false,
            stopped: false,
            tracks: Vec::new(),
            transceiver_codecs: None,
        }
    }

    /// The media kind, immutable after construction.
    pub fn kind(&self) -> (r: RTPCodecType)
        ensures
            r == self.kind,
    {
        self.kind
    }

    /// Attaches (or detaches) the transceiver's shared codec set.
    pub fn set_transceiver_codecs(&mut self, codecs: Option<u64>)
        ensures
            *final(self) == (RTCRtpReceiver { transceiver_codecs: codecs, ..*old(self) }),
    {
        self.transceiver_codecs = codecs;
    }

    /// Whether the one-shot gate was consumed, that is whether `receive`
    /// has run.
    pub fn have_received(&self) -> (r: bool)
        ensures
            r == self.received,
    {
        self.received
    }

    /// The single track, if exactly one exists; `None` for zero or several.
    pub fn track(&self) -> (r: Option<TrackRemote>)
        ensures
            self.tracks@.len() == 1 ==> r == Some(self.tracks@[0].track),
            self.tracks@.len() != 1 ==> r is None,
    {
        if self.tracks.len() != 1 {
            None
        } else {
            Some(self.tracks[0].track.clone())
        }
    }

    /// A point-in-time snapshot of every current track.
    pub fn tracks(&self) -> (r: Vec<TrackRemote>)
        ensures
            r@ == self.tracks@.map_values(|t: TrackStreams| t.track),
    {
        let mut out: Vec<TrackRemote> = Vec::new();
        let mut i: usize = 0;
        while i < self.tracks.len()
            invariant
                i <= self.tracks@.len(),
                out@ == self.tracks@.take(i as int).map_values(|t: TrackStreams| t.track),
            decreases self.tracks@.len() - i,
        {
            out.push(self.tracks[i].track.clone());
            proof {
                assert(self.tracks@.take(i + 1).map_values(|t: TrackStreams| t.track)
                    =~= self.tracks@.take(i as int).map_values(|t: TrackStreams| t.track).push(
                    self.tracks@[i as int].track,
                ));
            }
            i += 1;
        }
        proof {
            assert(self.tracks@.take(self.tracks@.len() as int) =~= self.tracks@);
        }
        out
    }

    /// Consumes the one-shot gate and plans the stream bindings, one plan
    /// per encoding in order. A second call fails and changes nothing. The
    /// caller performs each planned binding and hands the results back
    /// through `add_track` and `receive_for_rtx`, in encoding order.
    pub fn receive(&mut self, parameters: &RTCRtpReceiveParameters) -> (r: Result<
        Vec<BindingPlan>,
        Error,
    >)
        ensures
            *final(self) == old(self).spec_receive_state(),
            old(self).received ==> r == Err::<Vec<BindingPlan>, Error>(
                Error::ErrRTPReceiverReceiveAlreadyCalled,
            ),
            !old(self).received ==> (r matches Ok(v) && v@ == parameters.encodings@.map_values(
                |e: RTCRtpDecodingParameters| plan_for(e),
            )),
    {
        if self.received {
            return Err(Error::ErrRTPReceiverReceiveAlreadyCalled);
        }
        self.received = true;
        let mut plans: Vec<BindingPlan> = Vec::new();
        let mut i: usize = 0;
        while i < parameters.encodings.len()
            invariant
                i <= parameters.encodings@.len(),
                plans@ == parameters.encodings@.take(i as int).map_values(
                    |e: RTCRtpDecodingParameters| plan_for(e),
                ),
            decreases parameters.encodings@.len() - i,
        {
            let e = &parameters.encodings[i];
            let plan = BindingPlan {
                ssrc: if e.ssrc != 0 {
                    Some(e.ssrc)
                } else {
                    None
                },
                rtx_ssrc: if e.rtx.ssrc != 0 {
                    Some(e.rtx.ssrc)
                } else {
                    None
                },
            };
            plans.push(plan);
            proof {
                assert(parameters.encodings@.take(i + 1).map_values(
                    |e: RTCRtpDecodingParameters| plan_for(e),
                ) =~= parameters.encodings@.take(i as int).map_values(
                    |e: RTCRtpDecodingParameters| plan_for(e),
                ).push(plan_for(parameters.encodings@[i as int])));
            }
            i += 1;
        }
        proof {
            assert(parameters.encodings@.take(parameters.encodings@.len() as int)
                =~= parameters.encodings@);
        }
        Ok(plans)
    }

    /// Appends the track for one accepted encoding, with whatever pipeline
    /// the caller managed to bind (`empty_track_stream()`-like when binding
    /// was deferred) and no repair pipeline yet.
    pub fn add_track(&mut self, encoding: &RTCRtpDecodingParameters, stream: TrackStream)
        ensures
            final(self).tracks@ == old(self).tracks@.push(final(self).tracks@.last()),
            final(self).tracks@.last().stream == stream,
            final(self).tracks@.last().repair_stream == empty_track_stream(),
            final(self).tracks@.last().track.receive_mtu == old(self).receive_mtu,
            final(self).tracks@.last().track.kind == old(self).kind,
            final(self).tracks@.last().track.ssrc == encoding.ssrc,
            final(self).tracks@.last().track.rid == encoding.rid,
            final(self).tracks@.last().track.id@ == Seq::<char>::empty(),
            final(self).tracks@.last().track.stream_id@ == Seq::<char>::empty(),
            final(self).receive_mtu == old(self).receive_mtu,
            final(self).kind == old(self).kind,
            final(self).received == old(self).received,
            final(self).stopped == old(self).stopped,
            final(self).transceiver_codecs == old(self).transceiver_codecs,
    {
        let track = TrackRemote {
            receive_mtu: self.receive_mtu,
            kind: self.kind,
            ssrc: encoding.ssrc,
            rid: encoding.rid.clone(),
            id: String::new(),
            stream_id: String::new(),
        };
        let entry = TrackStreams {
            track,
            stream,
            repair_stream: TrackStream {
                stream_info: None,
                rtp_read_stream: None,
                rtp_interceptor: None,
                rtcp_read_stream: None,
                rtcp_interceptor: None,
            },
        };
        self.tracks.push(entry);
    }

    /// Attaches a bound repair pipeline to the matching track: a sole track
    /// takes any nonzero repair SSRC, otherwise the RID decides; the first
    /// matching track wins. On success the caller receives the repair RTP
    /// interceptor handle to drain in the background; with no match the
    /// receiver is left unchanged.
    pub fn receive_for_rtx(&mut self, ssrc: SSRC, rsid: &str, repair_stream: TrackStream) -> (r:
        Result<Option<u64>, Error>)
        ensures
            r matches Ok(d) ==> d == repair_stream.rtp_interceptor && (exists|k: int|
                rtx_attached(*old(self), *final(self), k, ssrc, rsid@, repair_stream)),
            r is Err ==> r == Err::<Option<u64>, Error>(
                Error::ErrRTPReceiverForRIDTrackStreamNotFound,
            ) && *final(self) == *old(self) && (forall|j: int|
                0 <= j < old(self).tracks@.len() ==> !old(self).rtx_match(j, ssrc, rsid@)),
    {
        let single = ssrc != 0 && self.tracks.len() == 1;
        let rsid_owned: String = rsid.to_owned();
        let ghost pre = *self;
        let mut i: usize = 0;
        while i < self.tracks.len()
            invariant
                *self == pre,
                pre == *old(self),
                i <= pre.tracks@.len(),
                single == (ssrc != 0 && pre.tracks@.len() == 1),
                rsid_owned@ == rsid@,
                forall|j: int| 0 <= j < i ==> !pre.rtx_match(j, ssrc, rsid@),
            decreases pre.tracks@.len() - i,
        {
            let matched = single || self.tracks[i].track.rid == rsid_owned;
            if matched {
                let drain = repair_stream.rtp_interceptor;
                let ghost updated = (TrackStreams {
                    repair_stream: repair_stream,
                    ..pre.tracks@[i as int]
                });
                self.tracks[i].repair_stream = repair_stream;
                proof {
                    assert(pre.rtx_match(i as int, ssrc, rsid@));
                    assert(self.tracks@[i as int] == updated);
                    assert(self.tracks@ =~= pre.tracks@.update(i as int, updated));
                    assert(rtx_attached(pre, *self, i as int, ssrc, rsid@, repair_stream));
                    assert(pre == *old(self));
                }
                return Ok(drain);
            }
            i += 1;
        }
        Err(Error::ErrRTPReceiverForRIDTrackStreamNotFound)
    }

    /// Decides an unfiltered RTCP read, as `spec_poll_read` states: stop is
    /// authoritative, the one-shot gate must have fired, and the first (and
    /// conceptually only) track serves the read.
    pub fn poll_read(&self) -> (r: ReadPoll)
        ensures
            r == self.spec_poll_read(),
    {
        if self.stopped {
            ReadPoll::Fail(Error::ErrClosedPipe)
        } else if !self.received {
            ReadPoll::Block
        } else if self.tracks.len() == 0 {
            ReadPoll::Fail(Error::ErrExistingTrack)
        } else {
            match self.tracks[0].stream.rtcp_interceptor {
                Some(h) => ReadPoll::ReadFrom(h),
                None => ReadPoll::Fail(Error::ErrInterceptorNotBind),
            }
        }
    }

    /// Decides a RID-filtered RTCP read, as `spec_poll_read_simulcast`
    /// states.
    pub fn poll_read_simulcast(&self, rid: &str) -> (r: ReadPoll)
        ensures
            r == self.spec_poll_read_simulcast(rid@),
    {
        if self.stopped {
            return ReadPoll::Fail(Error::ErrClosedPipe);
        }
        if !self.received {
            return ReadPoll::Block;
        }
        let rid_owned: String = rid.to_owned();
        let mut i: usize = 0;
        proof {
            assert(self.tracks@.skip(0) =~= self.tracks@);
        }
        while i < self.tracks.len()
            invariant
                i <= self.tracks@.len(),
                rid_owned@ == rid@,
                !self.stopped,
                self.received,
                rid_poll(self.tracks@, rid@) == rid_poll(self.tracks@.skip(i as int), rid@),
            decreases self.tracks@.len() - i,
        {
            proof {
                assert(self.tracks@.skip(i as int).len() > 0);
                assert(self.tracks@.skip(i as int).first() == self.tracks@[i as int]);
            }
            if self.tracks[i].track.rid == rid_owned {
                match self.tracks[i].stream.rtcp_interceptor {
                    Some(h) => {
                        proof {
                            assert(rid_poll(self.tracks@.skip(i as int), rid@)
                                == ReadPoll::ReadFrom(h));
                        }
                        return ReadPoll::ReadFrom(h);
                    },
                    None => {
                        proof {
                            assert(rid_poll(self.tracks@.skip(i as int), rid@) == ReadPoll::Fail(
                                Error::ErrInterceptorNotBind,
                            ));
                        }
                        return ReadPoll::Fail(Error::ErrInterceptorNotBind);
                    },
                }
            }
            proof {
                assert(self.tracks@.skip(i as int).drop_first() =~= self.tracks@.skip(i + 1));
            }
            i += 1;
        }
        proof {
            assert(self.tracks@.skip(self.tracks@.len() as int) =~= Seq::<TrackStreams>::empty());
        }
        ReadPoll::Fail(Error::ErrRTPReceiverForRIDTrackStreamNotFound)
    }

    /// Stops the receiver: the stop signal is set unconditionally (every
    /// blocked read fails as closed from now on), and, only if `receive` had
    /// run, every bound pipeline of every track is scheduled for closing and
    /// unbinding. The caller performs the returned steps, gathers every
    /// failure, and combines them with `flatten_errs`; the track collection
    /// itself is left in place, so existing track handles stay valid.
    pub fn stop(&mut self) -> (actions: Vec<StopAction>)
        ensures
            *final(self) == old(self).spec_stop_state(),
            actions@ == old(self).spec_stop_actions(),
    {
        self.stopped = true;
        let mut actions: Vec<StopAction> = Vec::new();
        if !self.received {
            return actions;
        }
        let mut i: usize = 0;
        while i < self.tracks.len()
            invariant
                i <= self.tracks@.len(),
                actions@ == stop_actions(self.tracks@.take(i as int)),
            decreases self.tracks@.len() - i,
        {
            push_track_actions(&mut actions, &self.tracks[i]);
            proof {
                assert(self.tracks@.take(i + 1).drop_last() =~= self.tracks@.take(i as int));
                assert(self.tracks@.take(i + 1).last() == self.tracks@[i as int]);
                assert(actions@ =~= stop_actions(self.tracks@.take(i + 1)));
            }
            i += 1;
        }
        proof {
            assert(self.tracks@.take(self.tracks@.len() as int) =~= self.tracks@);
        }
        actions
    }

    /// Back-fills the externally signalled track id and stream id onto every
    /// current track, leaving everything else in place.
    #[verifier::rlimit(50)]
    pub fn set_track_ids(&mut self, id: &str, stream_id: &str)
        ensures
            final(self).tracks@.len() == old(self).tracks@.len(),
            forall|i: int|
                0 <= i < old(self).tracks@.len() ==> #[trigger] track_ids_set(
                    old(self).tracks@[i],
                    final(self).tracks@[i],
                    id@,
                    stream_id@,
                ),
            final(self).receive_mtu == old(self).receive_mtu,
            final(self).kind == old(self).kind,
            final(self).received == old(self).received,
            final(self).stopped == old(self).stopped,
            final(self).transceiver_codecs == old(self).transceiver_codecs,
    {
        let ghost pre = *self;
        let mut i: usize = 0;
        while i < self.tracks.len()
            invariant
                i <= pre.tracks@.len(),
                self.tracks@.len() == pre.tracks@.len(),
                self.receive_mtu == pre.receive_mtu,
                self.kind == pre.kind,
                self.received == pre.received,
                self.stopped == pre.stopped,
                self.transceiver_codecs == pre.transceiver_codecs,
                forall|j: int|
                    i <= j < pre.tracks@.len() ==> #[trigger] self.tracks@[j] == pre.tracks@[j],
                forall|j: int|
                    0 <= j < i ==> #[trigger] track_ids_set(
                        pre.tracks@[j],
                        self.tracks@[j],
                        id@,
                        stream_id@,
                    ),
            decreases pre.tracks@.len() - i,
        {
            let ghost mid = self.tracks@;
            self.tracks[i].track.id = id.to_owned();
            let ghost step = self.tracks@;
            self.tracks[i].track.stream_id = stream_id.to_owned();
            proof {
                assert(step == mid.update(i as int, step[i as int]));
                assert(self.tracks@ == step.update(i as int, self.tracks@[i as int]));
                assert(track_ids_set(pre.tracks@[i as int], self.tracks@[i as int], id@, stream_id@));
                assert forall|j: int|
                    0 <= j < pre.tracks@.len() && j != i implies self.tracks@[j] == mid[j] by {
                }
            }
            i += 1;
        }
    }
}

/// Appends the teardown steps of one track, in the fixed order
/// `track_stop_actions` states.
#[verifier::rlimit(100)]
fn push_track_actions(actions: &mut Vec<StopAction>, t: &TrackStreams)
    ensures
        final(actions)@ == old(actions)@ + track_stop_actions(*t),
{
    let ghost a0 = actions@;
    if let Some(h) = t.stream.rtcp_read_stream {
        actions.push(StopAction::CloseStream(h));
    }
    proof {
        assert(actions@ =~= a0 + opt_close(t.stream.rtcp_read_stream));
    }
    let ghost a1 = actions@;
    if let Some(h) = t.stream.rtp_read_stream {
        actions.push(StopAction::CloseStream(h));
    }
    proof {
        assert(actions@ =~= a1 + opt_close(t.stream.rtp_read_stream));
    }
    let ghost a2 = actions@;
    if let Some(h) = t.repair_stream.rtcp_read_stream {
        actions.push(StopAction::CloseStream(h));
    }
    proof {
        assert(actions@ =~= a2 + opt_close(t.repair_stream.rtcp_read_stream));
    }
    let ghost a3 = actions@;
    if let Some(h) = t.repair_stream.rtp_read_stream {
        actions.push(StopAction::CloseStream(h));
    }
    proof {
        assert(actions@ =~= a3 + opt_close(t.repair_stream.rtp_read_stream));
    }
    let ghost a4 = actions@;
    if let Some(h) = t.stream.stream_info {
        actions.push(StopAction::UnbindStream(h));
    }
    proof {
        assert(actions@ =~= a4 + opt_unbind(t.stream.stream_info));
    }
    let ghost a5 = actions@;
    if let Some(h) = t.repair_stream.stream_info {
        actions.push(StopAction::UnbindStream(h));
    }
    proof {
        assert(actions@ =~= a5 + opt_unbind(t.repair_stream.stream_info));
        assert(actions@ =~= a0 + track_stop_actions(*t));
    }
}

/// Whether `post` is `pre` with only the track's id and stream id replaced
/// by the given values.
pub open spec fn track_ids_set(
    pre: TrackStreams,
    post: TrackStreams,
    id: Seq<char>,
    stream_id: Seq<char>,
) -> bool {
    &&& post.stream == pre.stream
    &&& post.repair_stream == pre.repair_stream
    &&& post.track.receive_mtu == pre.track.receive_mtu
    &&& post.track.kind == pre.track.kind
    &&& post.track.ssrc == pre.track.ssrc
    &&& post.track.rid == pre.track.rid
    &&& post.track.id@ == id
    &&& post.track.stream_id@ == stream_id
}

/// Whether `post` is `pre` with the repair pipeline of the track at index
/// `k` replaced by `repair` — `k` being the first track that matches the
/// repair SSRC and RID under the attachment rule — and nothing else changed.
pub open spec fn rtx_attached(
    pre: RTCRtpReceiver,
    post: RTCRtpReceiver,
    k: int,
    ssrc: SSRC,
    rsid: Seq<char>,
    repair: TrackStream,
) -> bool {
    &&& 0 <= k < pre.tracks@.len()
    &&& pre.rtx_match(k, ssrc, rsid)
    &&& forall|j: int| 0 <= j < k ==> !pre.rtx_match(j, ssrc, rsid)
    &&& post.tracks@ == pre.tracks@.update(
        k,
        (TrackStreams { repair_stream: repair, ..pre.tracks@[k] }),
    )
    &&& post.receive_mtu == pre.receive_mtu
    &&& post.kind == pre.kind
    &&& post.received == pre.received
    &&& post.stopped == pre.stopped
    &&& post.transceiver_codecs == pre.transceiver_codecs
}

/// Session-level track metadata from which a receiver is bootstrapped: the
/// signalled SSRCs and RIDs, one shared repair SSRC, and the external track
/// and stream identifiers.
#[derive(Debug)]
pub struct TrackDetails {
    pub id: String,
    pub stream_id: String,
    pub ssrcs: Vec<SSRC>,
    pub rids: Vec<String>,
    pub repair_ssrc: SSRC,
}

/// Builds the encodings for a signalled track: one per
/// `max(ssrcs, rids)` position, zipping the available SSRC and RID values
/// positionally, with the single repair SSRC shared across every encoding.
pub fn start_encodings(incoming: &TrackDetails) -> (r: Vec<RTCRtpDecodingParameters>)
    ensures
        r@.len() == (if incoming.ssrcs@.len() >= incoming.rids@.len() {
            incoming.ssrcs@.len()
        } else {
            incoming.rids@.len()
        }),
        forall|i: int|
            0 <= i < r@.len() ==> #[trigger] r@[i].ssrc == (if i < incoming.ssrcs@.len() {
                incoming.ssrcs@[i]
            } else {
                0
            }),
        forall|i: int|
            0 <= i < r@.len() ==> #[trigger] r@[i].rid@ == (if i < incoming.rids@.len() {
                incoming.rids@[i]@
            } else {
                Seq::<char>::empty()
            }),
        forall|i: int| 0 <= i < r@.len() ==> #[trigger] r@[i].rtx.ssrc == incoming.repair_ssrc,
{
    let mut encoding_size = incoming.ssrcs.len();
    if incoming.rids.len() >= encoding_size {
        encoding_size = incoming.rids.len();
    }
    let mut encodings: Vec<RTCRtpDecodingParameters> = Vec::new();
    let mut i: usize = 0;
    while i < encoding_size
        invariant
            i <= encoding_size,
            encoding_size == (if incoming.ssrcs@.len() >= incoming.rids@.len() {
                incoming.ssrcs@.len()
            } else {
                incoming.rids@.len()
            }),
            encodings@.len() == i,
            forall|j: int|
                0 <= j < i ==> #[trigger] encodings@[j].ssrc == (if j < incoming.ssrcs@.len() {
                    incoming.ssrcs@[j]
                } else {
                    0
                }),
            forall|j: int|
                0 <= j < i ==> #[trigger] encodings@[j].rid@ == (if j < incoming.rids@.len() {
                    incoming.rids@[j]@
                } else {
                    Seq::<char>::empty()
                }),
            forall|j: int|
                0 <= j < i ==> #[trigger] encodings@[j].rtx.ssrc == incoming.repair_ssrc,
        decreases encoding_size - i,
    {
        let ssrc = if i < incoming.ssrcs.len() {
            incoming.ssrcs[i]
        } else {
            0
        };
        let rid = if i < incoming.rids.len() {
            incoming.rids[i].clone()
        } else {
            String::new()
        };
        encodings.push(
            RTCRtpDecodingParameters {
                ssrc,
                rid,
                rtx: RTCRtpRtxParameters { ssrc: incoming.repair_ssrc },
            },
        );
        i += 1;
    }
    encodings
}

/// `receive` runs at most once: on a receiver whose one-shot flag is set,
/// a later call fails with the sequence error and leaves the whole
/// receiver, its track collection in particular, exactly as it stood.
pub proof fn lemma_receive_at_most_once(rcv: RTCRtpReceiver)
    ensures
        rcv.spec_receive_state().received,
        rcv.spec_receive_state().spec_receive_state() == rcv.spec_receive_state(),
        rcv.spec_receive_state().tracks == rcv.tracks,
{
}

/// `stop` is idempotent and safe before `receive`: it never touches the
/// track collection, a second stop finds the same state and schedules the
/// same steps, and a receiver that never received schedules no step at all —
/// so stopping it succeeds with no error and no side effect beyond the stop
/// signal itself.
pub proof fn lemma_stop_idempotent(rcv: RTCRtpReceiver)
    ensures
        rcv.spec_stop_state().spec_stop_state() == rcv.spec_stop_state(),
        rcv.spec_stop_state().spec_stop_actions() == rcv.spec_stop_actions(),
        rcv.spec_stop_state().tracks == rcv.tracks,
        rcv.spec_stop_state().received == rcv.received,
        !rcv.received ==> rcv.spec_stop_actions() == Seq::<StopAction>::empty(),
{
}

/// Once `stop` has run, every read decision — blocked or fresh, filtered or
/// not — is the closed-pipe failure: a blocked read unblocks with that
/// error as soon as it observes the stop signal.
pub proof fn lemma_stop_unblocks_reads(rcv: RTCRtpReceiver, rid: Seq<char>)
    ensures
        rcv.spec_stop_state().spec_poll_read() == ReadPoll::Fail(Error::ErrClosedPipe),
        rcv.spec_stop_state().spec_poll_read_simulcast(rid) == ReadPoll::Fail(Error::ErrClosedPipe),
{
}

/// With no track carrying the requested RID, a RID-filtered read fails as
/// not-found.
pub proof fn lemma_rid_poll_not_found(tracks: Seq<TrackStreams>, rid: Seq<char>)
    requires
        forall|i: int| 0 <= i < tracks.len() ==> #[trigger] tracks[i].track.rid@ != rid,
    ensures
        rid_poll(tracks, rid) == ReadPoll::Fail(Error::ErrRTPReceiverForRIDTrackStreamNotFound),
    decreases tracks.len(),
{
    if tracks.len() > 0 {
        assert(tracks[0].track.rid@ != rid);
        assert forall|i: int|
            0 <= i < tracks.drop_first().len() implies #[trigger] tracks.drop_first()[i].track.rid@
            != rid by {
            assert(tracks.drop_first()[i] == tracks[i + 1]);
        }
        lemma_rid_poll_not_found(tracks.drop_first(), rid);
    }
}

/// On a receiver that has received and holds exactly one track: a
/// RID-filtered read with a non-matching RID fails as not-found, and one
/// with the matching RID reads from the track's RTCP interceptor once that
/// is bound.
pub proof fn lemma_read_simulcast_single_track(rcv: RTCRtpReceiver, rid: Seq<char>)
    requires
        rcv.received,
        !rcv.stopped,
        rcv.tracks@.len() == 1,
    ensures
        rcv.tracks@[0].track.rid@ != rid ==> rcv.spec_poll_read_simulcast(rid) == ReadPoll::Fail(
            Error::ErrRTPReceiverForRIDTrackStreamNotFound,
        ),
        (rcv.tracks@[0].track.rid@ == rid && rcv.tracks@[0].stream.rtcp_interceptor is Some)
            ==> rcv.spec_poll_read_simulcast(rid) == ReadPoll::ReadFrom(
            rcv.tracks@[0].stream.rtcp_interceptor.unwrap(),
        ),
{
    if rcv.tracks@[0].track.rid@ != rid {
        lemma_rid_poll_not_found(rcv.tracks@, rid);
    }
}

} // verus!
