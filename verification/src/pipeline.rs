//! The orchestrator: takes the bytes of the source as they arrive, hands
//! each flushed window through the demultiplexer, and decides after every
//! stage outside whether the run goes on.

use vstd::prelude::*;
use crate::decode::DecodeError;
use crate::demux::{demux_audio, demux_pid, readable, AudioTrackRegistration};
use crate::inference::{InferenceError, Transcript};
use crate::transcript::{ordered_by_start, segment_models, Segment};
use crate::transport::{get_ts_audio, ts_reads};
use crate::window::{AccumulatorModel, WindowAccumulator};

verus! {

/// The failures that end a run.
#[derive(Clone, Copy, Debug, PartialEq, Eq, Structural)]
pub enum PipelineError {
    /// The byte source could not be read.
    SourceRead,
    /// No decoder could be set up for the audio stream.
    CodecInit,
    /// The recognition engine failed.
    Inference,
}

impl PipelineError {
    /// The cause of the failure in words.
    pub open spec fn cause_text(self) -> Seq<char> {
        match self {
            PipelineError::SourceRead => "the source could not be read"@,
            PipelineError::CodecInit => "no decoder could be set up for the audio stream"@,
            PipelineError::Inference => "the recognition engine failed"@,
        }
    }

    /// The cause of the failure in words, for whoever started the run.
    pub fn cause(&self) -> (text: &'static str)
        ensures
            text@ == self.cause_text(),
    {
        match self {
            PipelineError::SourceRead => "the source could not be read",
            PipelineError::CodecInit => "no decoder could be set up for the audio stream",
            PipelineError::Inference => "the recognition engine failed",
        }
    }
}

/// What is done with a window once its audio went through the decoder.
#[derive(Clone, Copy, Debug, PartialEq, Eq, Structural)]
pub enum WindowAction {
    /// The decoded audio goes to the recognition engine.
    Transcribe,
    /// The window is treated as silent: it yields no segments.
    Skip,
    /// The run ends.
    Abort(PipelineError),
}

/// Model of a [`Pipeline`].
pub struct PipelineModel {
    pub accumulator: AccumulatorModel,
    /// The audio stream registered so far.
    pub audio_pid: Option<u16>,
    /// The failure that ended the run, if one did.
    pub halted: Option<PipelineError>,
}

impl PipelineModel {
    /// The audio stream registered after the window `window` went through
    /// the demultiplexer.
    pub open spec fn pid_after(self, window: Seq<u8>) -> Option<u16> {
        demux_pid(self.audio_pid, readable(ts_reads(window)))
    }

    /// The audio bytes that the window `window` yields.
    pub open spec fn audio_of(self, window: Seq<u8>) -> Seq<u8> {
        demux_audio(self.audio_pid, readable(ts_reads(window)))
    }

    /// The pipeline after a chunk arrived at `now`. A run that has ended
    /// takes nothing in.
    pub open spec fn fed(self, chunk: Seq<u8>, now: u64) -> PipelineModel {
        if self.halted is Some {
            self
        } else {
            PipelineModel {
                accumulator: self.accumulator.pushed(chunk, now),
                audio_pid: match self.accumulator.emitted(chunk, now) {
                    Some(window) => self.pid_after(window),
                    None => self.audio_pid,
                },
                halted: None,
            }
        }
    }

    /// The audio bytes that are handed on when a chunk arrives at `now`:
    /// those of the window that the arrival flushes, if it flushes one.
    pub open spec fn fed_audio(self, chunk: Seq<u8>, now: u64) -> Option<Seq<u8>> {
        if self.halted is Some {
            None
        } else {
            match self.accumulator.emitted(chunk, now) {
                Some(window) => Some(self.audio_of(window)),
                None => None,
            }
        }
    }

    /// The pipeline after the source ended.
    pub open spec fn finished(self) -> PipelineModel {
        if self.halted is Some {
            self
        } else {
            PipelineModel {
                accumulator: AccumulatorModel { buffer: Seq::empty(), ..self.accumulator },
                audio_pid: if self.accumulator.buffer.len() > 0 {
                    self.pid_after(self.accumulator.buffer)
                } else {
                    self.audio_pid
                },
                halted: None,
            }
        }
    }

    /// The audio bytes of the last, partial window: those of whatever was
    /// still buffered when the source ended, if anything was.
    pub open spec fn finished_audio(self) -> Option<Seq<u8>> {
        if self.halted is None && self.accumulator.buffer.len() > 0 {
            Some(self.audio_of(self.accumulator.buffer))
        } else {
            None
        }
    }

    /// The pipeline after the failure `error`: the first failure that ends
    /// a run is the one it keeps.
    pub open spec fn halted_by(self, error: PipelineError) -> PipelineModel {
        if self.halted is Some {
            self
        } else {
            PipelineModel { halted: Some(error), ..self }
        }
    }

    /// The pipeline after the decoder reported on a window, with the number
    /// of samples or with a failure: only a failure to set up the codec ends
    /// the run.
    pub open spec fn decoded(self, outcome: Result<usize, DecodeError>) -> PipelineModel {
        match outcome {
            Err(error) if error.fatal() => self.halted_by(PipelineError::CodecInit),
            _ => self,
        }
    }

    /// What is done with the window that the decoder reported on: audio
    /// goes to the recognition engine, a window without samples is silent.
    pub open spec fn window_action(self, outcome: Result<usize, DecodeError>) -> WindowAction {
        match self.decoded(outcome).halted {
            Some(error) => WindowAction::Abort(error),
            None => match outcome {
                Ok(samples) if samples > 0 => WindowAction::Transcribe,
                _ => WindowAction::Skip,
            },
        }
    }
}

/// The state of a run: the bytes that wait for the next window, the audio
/// stream found so far, and whether the run has ended.
pub struct Pipeline {
    accumulator: WindowAccumulator,
    registration: AudioTrackRegistration,
    halted: Option<PipelineError>,
}

impl View for Pipeline {
    type V = PipelineModel;

    closed spec fn view(&self) -> PipelineModel {
        PipelineModel {
            accumulator: self.accumulator@,
            audio_pid: self.registration.audio_pid,
            halted: self.halted,
        }
    }
}

impl Pipeline {
    /// A run that starts at `now`, with nothing buffered and no audio
    /// stream registered.
    pub fn new(now: u64, target_interval: u64) -> (pipeline: Self)
        ensures
            pipeline@ == (PipelineModel {
                accumulator: AccumulatorModel {
                    buffer: Seq::empty(),
                    last_flush: now,
                    target_interval,
                },
                audio_pid: None,
                halted: None,
            }),
    {
        Pipeline {
            accumulator: WindowAccumulator::new(now, target_interval),
            registration: AudioTrackRegistration::new(),
            halted: None,
        }
    }

    /// The failure that ended the run, if one did.
    pub fn halted(&self) -> (halted: Option<PipelineError>)
        ensures
            halted == self@.halted,
    {
        self.halted
    }

    /// The audio stream registered so far.
    pub fn audio_pid(&self) -> (pid: Option<u16>)
        ensures
            pid == self@.audio_pid,
    {
        self.registration.audio_pid()
    }

    /// The number of bytes that wait for the next window.
    pub fn buffered(&self) -> (len: usize)
        ensures
            len == self@.accumulator.buffer.len(),
    {
        self.accumulator.buffered()
    }

    /// Takes a chunk that the source delivered at `now`. If the arrival
    /// flushes a window, the window goes through the demultiplexer and its
    /// audio bytes are returned.
    pub fn feed(&mut self, chunk: &[u8], now: u64) -> (audio: Option<Vec<u8>>)
        ensures
            final(self)@ == old(self)@.fed(chunk@, now),
            match audio {
                Some(bytes) => old(self)@.fed_audio(chunk@, now) == Some(bytes@),
                None => old(self)@.fed_audio(chunk@, now) is None,
            },
    {
        if self.halted.is_some() {
            return None;
        }
        match self.accumulator.push(chunk, now) {
            Some(window) => Some(get_ts_audio(window.as_slice(), &mut self.registration)),
            None => None,
        }
    }

    /// Takes the end of the source: what is still buffered goes through the
    /// demultiplexer as a last window, and its audio bytes are returned.
    pub fn finish(&mut self) -> (audio: Option<Vec<u8>>)
        ensures
            final(self)@ == old(self)@.finished(),
            match audio {
                Some(bytes) => old(self)@.finished_audio() == Some(bytes@),
                None => old(self)@.finished_audio() is None,
            },
    {
        if self.halted.is_some() {
            return None;
        }
        match self.accumulator.finish() {
            Some(window) => Some(get_ts_audio(window.as_slice(), &mut self.registration)),
            None => None,
        }
    }

    /// Takes a failure to read the source: the run ends.
    pub fn source_failed(&mut self) -> (error: PipelineError)
        ensures
            final(self)@ == old(self)@.halted_by(PipelineError::SourceRead),
            Some(error) == final(self)@.halted,
    {
        self.halt(PipelineError::SourceRead)
    }

    /// Takes what the decoder reported on a window, the number of samples
    /// or a failure, and says what is done with the window. A window that
    /// could not be decoded, or that holds no samples, is skipped and the
    /// run goes on; only a failure to set up the codec ends the run.
    pub fn decoded(&mut self, outcome: Result<usize, DecodeError>) -> (action: WindowAction)
        ensures
            final(self)@ == old(self)@.decoded(outcome),
            action == old(self)@.window_action(outcome),
    {
        match outcome {
            Ok(samples) => match self.halted {
                Some(error) => WindowAction::Abort(error),
                None => if samples > 0 {
                    WindowAction::Transcribe
                } else {
                    WindowAction::Skip
                },
            },
            Err(error) => {
                if error.is_fatal() {
                    WindowAction::Abort(self.halt(PipelineError::CodecInit))
                } else {
                    match self.halted {
                        Some(error) => WindowAction::Abort(error),
                        None => WindowAction::Skip,
                    }
                }
            },
        }
    }

    /// Takes what the recognition engine returned for a window. Segments in
    /// order of their start times are accepted as the transcript of the
    /// window; a failure of the engine ends the run, and so do segments out
    /// of order.
    pub fn transcribed(&mut self, report: Result<Vec<Segment>, InferenceError>) -> (accepted:
        Result<Transcript, PipelineError>)
        ensures
            match accepted {
                Ok(transcript) => {
                    &&& old(self)@.halted is None
                    &&& final(self)@ == old(self)@
                    &&& report matches Ok(segments) && transcript@ == segment_models(segments@)
                    &&& ordered_by_start(transcript@)
                },
                Err(error) => {
                    &&& final(self)@ == old(self)@.halted_by(PipelineError::Inference)
                    &&& final(self)@.halted == Some(error)
                    &&& old(self)@.halted is None ==> !(report matches Ok(segments)
                        && ordered_by_start(segment_models(segments@)))
                },
            },
    {
        match self.halted {
            Some(error) => Err(error),
            None => match report {
                Ok(segments) => match Transcript::new(segments) {
                    Ok(transcript) => Ok(transcript),
                    Err(_) => Err(self.halt(PipelineError::Inference)),
                },
                Err(_) => Err(self.halt(PipelineError::Inference)),
            },
        }
    }

    fn halt(&mut self, error: PipelineError) -> (kept: PipelineError)
        ensures
            final(self)@ == old(self)@.halted_by(error),
            Some(kept) == final(self)@.halted,
    {
        match self.halted {
            Some(first) => first,
            None => {
                self.halted = Some(error);
                error
            },
        }
    }
}

/// A window that cannot be decoded leaves the run as it was: it is skipped,
/// and the windows after it are taken in, demultiplexed and handed on as if
/// the window had decoded, however many samples it might have held.
pub proof fn lemma_soft_failure_isolated(
    pipeline: PipelineModel,
    samples: usize,
    chunk: Seq<u8>,
    now: u64,
)
    ensures
        pipeline.decoded(Err(DecodeError::PartialFrame)) == pipeline,
        pipeline.halted is None ==> pipeline.window_action(Err(DecodeError::PartialFrame))
            == WindowAction::Skip,
        pipeline.decoded(Err(DecodeError::PartialFrame)).fed(chunk, now) == pipeline.decoded(
            Ok(samples),
        ).fed(chunk, now),
        pipeline.decoded(Err(DecodeError::PartialFrame)).fed_audio(chunk, now) == pipeline.decoded(
            Ok(samples),
        ).fed_audio(chunk, now),
        pipeline.decoded(Err(DecodeError::PartialFrame)).finished_audio() == pipeline.decoded(
            Ok(samples),
        ).finished_audio(),
{
}

} // verus!
