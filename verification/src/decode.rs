//! The decisions of the decode adapter: which track of the elementary
//! stream is decoded, which failures end a window softly and which end the
//! run. The codec itself works outside; it is told what to do next and
//! reports what came of it.

use vstd::prelude::*;

verus! {

/// Why a window yields no audio.
#[derive(Clone, Copy, Debug, PartialEq, Eq, Structural)]
pub enum DecodeError {
    /// The bytes of the window are empty or hold no frame that can be
    /// parsed, as happens where a window starts or ends inside a frame.
    PartialFrame,
    /// No decoder can be set up for the stream.
    CodecInit,
}

impl DecodeError {
    /// Whether the failure ends the whole run rather than one window.
    pub open spec fn fatal(self) -> bool {
        self == DecodeError::CodecInit
    }

    /// Whether the failure ends the whole run rather than one window.
    pub fn is_fatal(&self) -> (fatal: bool)
        ensures
            fatal == self.fatal(),
    {
        match self {
            DecodeError::PartialFrame => false,
            DecodeError::CodecInit => true,
        }
    }
}

/// A track of the probed stream: its identifier, and whether a codec is
/// known for it.
#[derive(Clone, Copy, Debug, PartialEq, Eq, Structural)]
pub struct TrackInfo {
    pub id: u32,
    pub decodable: bool,
}

/// Track `i` is the first track of the list with a known codec.
pub open spec fn is_first_decodable(tracks: Seq<TrackInfo>, i: int) -> bool {
    &&& 0 <= i < tracks.len()
    &&& tracks[i].decodable
    &&& forall|j: int| 0 <= j < i ==> !(#[trigger] tracks[j]).decodable
}

/// The position of the first track with a known codec, if there is one.
pub open spec fn selected_track(tracks: Seq<TrackInfo>) -> Option<int> {
    if exists|i: int| is_first_decodable(tracks, i) {
        Some(choose|i: int| is_first_decodable(tracks, i))
    } else {
        None
    }
}

/// A list of tracks has at most one first track with a known codec.
pub proof fn lemma_first_decodable_unique(tracks: Seq<TrackInfo>, i: int, k: int)
    requires
        is_first_decodable(tracks, i),
        is_first_decodable(tracks, k),
    ensures
        i == k,
{
    if i < k {
        assert(!tracks[i].decodable);
    } else if k < i {
        assert(!tracks[k].decodable);
    }
}

/// Finds the first track with a known codec.
pub fn select_track(tracks: &Vec<TrackInfo>) -> (found: Option<usize>)
    ensures
        match found {
            Some(i) => selected_track(tracks@) == Some(i as int),
            None => selected_track(tracks@) is None,
        },
{
    let mut i: usize = 0;
    while i < tracks.len()
        invariant
            i <= tracks.len(),
            forall|j: int| 0 <= j < i ==> !(#[trigger] tracks@[j]).decodable,
        decreases tracks.len() - i,
    {
        if tracks[i].decodable {
            proof {
                assert(is_first_decodable(tracks@, i as int));
                lemma_first_decodable_unique(
                    tracks@,
                    i as int,
                    choose|k: int| is_first_decodable(tracks@, k),
                );
            }
            return Some(i);
        }
        i += 1;
    }
    proof {
        assert forall|k: int| !is_first_decodable(tracks@, k) by {
            if 0 <= k < tracks@.len() {
                assert(!tracks@[k].decodable);
            }
        }
    }
    None
}

/// Where the decoding of one window stands.
#[derive(Clone, Copy, Debug, PartialEq, Eq, Structural)]
pub enum DecodePhase {
    /// The stream is being probed for its format.
    Probing,
    /// A decoder is being made for the track at `index`.
    MakingDecoder { index: usize, track: u32 },
    /// The next packet of the stream is being read.
    Reading { track: u32 },
    /// The packet just read is being decoded.
    Decoding { track: u32 },
    /// The frame just decoded is being added to the audio of the window.
    Keeping { track: u32 },
    /// Decoding is over; the audio kept so far is that of the window.
    Finished,
    /// Decoding is over and the window yields no audio.
    Failed(DecodeError),
}

/// What the codec reports.
#[derive(Clone, Debug, PartialEq, Eq)]
pub enum DecodeEvent {
    /// Probing found a format, with these tracks.
    Probed(Vec<TrackInfo>),
    /// Probing found no format in the bytes.
    ProbeFailed,
    /// The decoder was made.
    DecoderReady,
    /// No decoder could be made for the track.
    DecoderFailed,
    /// A packet of the track `track_id` was read.
    Packet { track_id: u32 },
    /// The stream asks for its tracks and decoders to be set up anew.
    ResetRequired,
    /// No further packet could be read.
    ReadEnded,
    /// The packet was decoded into a frame.
    FrameDecoded,
    /// The packet held malformed data.
    FrameMalformed,
    /// Decoding failed for another reason.
    FrameFailed,
    /// The frame was added to the audio of the window.
    FrameKept,
}

/// What the codec is to do next.
#[derive(Clone, Copy, Debug, PartialEq, Eq, Structural)]
pub enum DecodeAction {
    /// Probe the stream for its format and report its tracks.
    Probe,
    /// Make a decoder for the track at `index`.
    MakeDecoder { index: usize },
    /// Read the next packet.
    ReadPacket,
    /// Decode the packet just read.
    DecodePacket,
    /// Add the first channel of the frame just decoded to the audio.
    KeepFrame,
    /// Stop: the audio kept so far is that of the window.
    Finish,
    /// Stop: the window yields no audio.
    Fail(DecodeError),
}

/// The phase in which decoding starts on `len` bytes: nothing can be
/// decoded from no bytes.
pub open spec fn first_phase(len: nat) -> DecodePhase {
    if len == 0 {
        DecodePhase::Failed(DecodeError::PartialFrame)
    } else {
        DecodePhase::Probing
    }
}

/// The phase that follows when `event` is reported in `phase`. An event
/// that does not answer what the phase waits for changes nothing.
pub open spec fn next_phase(phase: DecodePhase, event: DecodeEvent) -> DecodePhase {
    match (phase, event) {
        (DecodePhase::Probing, DecodeEvent::Probed(tracks)) => match selected_track(tracks@) {
            Some(i) => DecodePhase::MakingDecoder { index: i as usize, track: tracks@[i].id },
            None => DecodePhase::Failed(DecodeError::CodecInit),
        },
        (DecodePhase::Probing, DecodeEvent::ProbeFailed) => DecodePhase::Failed(
            DecodeError::PartialFrame,
        ),
        (DecodePhase::MakingDecoder { index, track }, DecodeEvent::DecoderReady) => {
            DecodePhase::Reading { track }
        },
        (DecodePhase::MakingDecoder { index, track }, DecodeEvent::DecoderFailed) => {
            DecodePhase::Failed(DecodeError::CodecInit)
        },
        (DecodePhase::Reading { track }, DecodeEvent::Packet { track_id }) => if track_id
            == track {
            DecodePhase::Decoding { track }
        } else {
            DecodePhase::Reading { track }
        },
        (DecodePhase::Reading { track }, DecodeEvent::ResetRequired) => DecodePhase::Failed(
            DecodeError::CodecInit,
        ),
        (DecodePhase::Reading { track }, DecodeEvent::ReadEnded) => DecodePhase::Finished,
        (DecodePhase::Decoding { track }, DecodeEvent::FrameDecoded) => DecodePhase::Keeping {
            track,
        },
        (DecodePhase::Decoding { track }, DecodeEvent::FrameMalformed) => DecodePhase::Reading {
            track,
        },
        (DecodePhase::Decoding { track }, DecodeEvent::FrameFailed) => DecodePhase::Finished,
        (DecodePhase::Keeping { track }, DecodeEvent::FrameKept) => DecodePhase::Reading {
            track,
        },
        _ => phase,
    }
}

/// What a phase waits for.
pub open spec fn pending_action(phase: DecodePhase) -> DecodeAction {
    match phase {
        DecodePhase::Probing => DecodeAction::Probe,
        DecodePhase::MakingDecoder { index, track } => DecodeAction::MakeDecoder { index },
        DecodePhase::Reading { track } => DecodeAction::ReadPacket,
        DecodePhase::Decoding { track } => DecodeAction::DecodePacket,
        DecodePhase::Keeping { track } => DecodeAction::KeepFrame,
        DecodePhase::Finished => DecodeAction::Finish,
        DecodePhase::Failed(error) => DecodeAction::Fail(error),
    }
}

/// The phase after a run of events, reported one after the other.
pub open spec fn phase_after(phase: DecodePhase, events: Seq<DecodeEvent>) -> DecodePhase
    decreases events.len(),
{
    if events.len() == 0 {
        phase
    } else {
        phase_after(next_phase(phase, events[0]), events.skip(1))
    }
}

/// The decoder stands: packets are being read and decoded, or decoding has
/// ended with the audio kept so far.
pub open spec fn set_up(phase: DecodePhase) -> bool {
    phase is Reading || phase is Decoding || phase is Keeping || phase is Finished
}

/// Once the decoder stands, no malformed frame and no failed read makes the
/// window fail: as long as the stream does not ask to be set up anew,
/// decoding goes on or ends with the audio kept so far.
pub proof fn lemma_frames_fail_softly(phase: DecodePhase, events: Seq<DecodeEvent>)
    requires
        set_up(phase),
        forall|i: int| 0 <= i < events.len() ==> !((#[trigger] events[i]) is ResetRequired),
    ensures
        set_up(phase_after(phase, events)),
    decreases events.len(),
{
    if events.len() > 0 {
        let rest = events.skip(1);
        assert(!(events[0] is ResetRequired));
        assert forall|i: int| 0 <= i < rest.len() implies !((#[trigger] rest[i])
            is ResetRequired) by {
            assert(rest[i] == events[i + 1]);
        }
        lemma_frames_fail_softly(next_phase(phase, events[0]), rest);
    }
}

/// The decoding of one window, step by step.
#[derive(Clone, Copy, Debug, PartialEq, Eq, Structural)]
pub struct DecodeSession {
    pub phase: DecodePhase,
}

impl DecodeSession {
    /// Starts the decoding of a window of `len` elementary-stream bytes.
    pub fn new(len: usize) -> (session: Self)
        ensures
            session.phase == first_phase(len as nat),
    {
        if len == 0 {
            DecodeSession { phase: DecodePhase::Failed(DecodeError::PartialFrame) }
        } else {
            DecodeSession { phase: DecodePhase::Probing }
        }
    }

    /// What the codec is to do now.
    pub fn action(&self) -> (action: DecodeAction)
        ensures
            action == pending_action(self.phase),
    {
        match self.phase {
            DecodePhase::Probing => DecodeAction::Probe,
            DecodePhase::MakingDecoder { index, track: _ } => DecodeAction::MakeDecoder { index },
            DecodePhase::Reading { track: _ } => DecodeAction::ReadPacket,
            DecodePhase::Decoding { track: _ } => DecodeAction::DecodePacket,
            DecodePhase::Keeping { track: _ } => DecodeAction::KeepFrame,
            DecodePhase::Finished => DecodeAction::Finish,
            DecodePhase::Failed(error) => DecodeAction::Fail(error),
        }
    }

    /// Takes what the codec reports and says what it is to do next.
    pub fn advance(&mut self, event: &DecodeEvent) -> (action: DecodeAction)
        ensures
            final(self).phase == next_phase(old(self).phase, *event),
            action == pending_action(final(self).phase),
    {
        let next = match (self.phase, event) {
            (DecodePhase::Probing, DecodeEvent::Probed(tracks)) => match select_track(tracks) {
                Some(index) => DecodePhase::MakingDecoder { index, track: tracks[index].id },
                None => DecodePhase::Failed(DecodeError::CodecInit),
            },
            (DecodePhase::Probing, DecodeEvent::ProbeFailed) => DecodePhase::Failed(
                DecodeError::PartialFrame,
            ),
            (DecodePhase::MakingDecoder { index: _, track }, DecodeEvent::DecoderReady) => {
                DecodePhase::Reading { track }
            },
            (DecodePhase::MakingDecoder { index: _, track: _ }, DecodeEvent::DecoderFailed) => {
                DecodePhase::Failed(DecodeError::CodecInit)
            },
            (DecodePhase::Reading { track }, DecodeEvent::Packet { track_id }) => {
                if *track_id == track {
                    DecodePhase::Decoding { track }
                } else {
                    DecodePhase::Reading { track }
                }
            },
            (DecodePhase::Reading { track: _ }, DecodeEvent::ResetRequired) => DecodePhase::Failed(
                DecodeError::CodecInit,
            ),
            (DecodePhase::Reading { track: _ }, DecodeEvent::ReadEnded) => DecodePhase::Finished,
            (DecodePhase::Decoding { track }, DecodeEvent::FrameDecoded) => DecodePhase::Keeping {
                track,
            },
            (DecodePhase::Decoding { track }, DecodeEvent::FrameMalformed) => {
                DecodePhase::Reading { track }
            },
            (DecodePhase::Decoding { track: _ }, DecodeEvent::FrameFailed) => DecodePhase::Finished,
            (DecodePhase::Keeping { track }, DecodeEvent::FrameKept) => DecodePhase::Reading {
                track,
            },
            (phase, _) => phase,
        };
        self.phase = next;
        self.action()
    }

    /// The outcome, once decoding is over.
    pub fn outcome(&self) -> (outcome: Option<Result<(), DecodeError>>)
        ensures
            outcome == match self.phase {
                DecodePhase::Finished => Some(Ok::<(), DecodeError>(())),
                DecodePhase::Failed(error) => Some(Err::<(), DecodeError>(error)),
                _ => None,
            },
    {
        match self.phase {
            DecodePhase::Finished => Some(Ok(())),
            DecodePhase::Failed(error) => Some(Err(error)),
            _ => None,
        }
    }
}

} // verus!
