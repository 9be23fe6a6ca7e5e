//! What goes into the recognition engine and what is accepted from it.

use vstd::prelude::*;
use vstd::string::StringExecFns;
use crate::transcript::{is_ordered, ordered_by_start, segment_models, Segment, SegmentModel};

verus! {

/// Why a window has no transcript.
#[derive(Clone, Copy, Debug, PartialEq, Eq, Structural)]
pub enum InferenceError {
    /// The recognition engine reported a failure.
    Engine,
    /// The engine returned segments whose start times decrease.
    Unordered,
}

/// The settings of the recognition engine, fixed when the run starts.
#[derive(Clone, Debug, PartialEq, Eq)]
pub struct InferenceConfig {
    /// The number of candidates that greedy sampling keeps.
    pub best_of: i32,
    /// The number of threads that the engine may use.
    pub threads: i32,
    /// Whether the text is translated.
    pub translate: bool,
    /// The language of the speech.
    pub language: String,
    pub print_special: bool,
    pub print_progress: bool,
    pub print_realtime: bool,
    pub print_timestamps: bool,
}

/// The settings that every window is recognised with: greedy sampling with
/// one candidate, one thread, Japanese, no translation, and nothing printed
/// by the engine itself.
pub fn get_params() -> (config: InferenceConfig)
    ensures
        config.best_of == 1,
        config.threads == 1,
        !config.translate,
        config.language@ == seq!['j', 'a'],
        !config.print_special,
        !config.print_progress,
        !config.print_realtime,
        !config.print_timestamps,
{
    proof {
        reveal_strlit("ja");
    }
    let language = String::from_str("ja");
    assert(language@ =~= seq!['j', 'a']);
    InferenceConfig {
        best_of: 1,
        threads: 1,
        translate: false,
        language,
        print_special: false,
        print_progress: false,
        print_realtime: false,
        print_timestamps: false,
    }
}

/// The segments of one window, ordered by start time.
pub struct Transcript {
    segments: Vec<Segment>,
}

impl View for Transcript {
    type V = Seq<SegmentModel>;

    closed spec fn view(&self) -> Seq<SegmentModel> {
        segment_models(self.segments@)
    }
}

impl Transcript {
    #[verifier::type_invariant]
    spec fn well_formed(&self) -> bool {
        ordered_by_start(segment_models(self.segments@))
    }

    /// Accepts the segments of a window as the engine returned them, unless
    /// their start times decrease somewhere.
    pub fn new(segments: Vec<Segment>) -> (accepted: Result<Transcript, InferenceError>)
        ensures
            match accepted {
                Ok(transcript) => ordered_by_start(segment_models(segments@)) && transcript@
                    == segment_models(segments@),
                Err(error) => !ordered_by_start(segment_models(segments@)) && error
                    == InferenceError::Unordered,
            },
    {
        if is_ordered(&segments) {
            Ok(Transcript { segments })
        } else {
            Err(InferenceError::Unordered)
        }
    }

    /// The number of segments.
    pub fn len(&self) -> (len: usize)
        ensures
            len == self@.len(),
    {
        self.segments.len()
    }

    /// The segments, in order.
    pub fn segments(&self) -> (segments: &Vec<Segment>)
        ensures
            segment_models(segments@) == self@,
            ordered_by_start(segment_models(segments@)),
    {
        proof {
            use_type_invariant(self);
        }
        &self.segments
    }

    /// The lines that show the segments, one for each, in order.
    pub fn render(&self) -> (lines: Vec<String>)
        ensures
            lines@.len() == self@.len(),
            forall|i: int| 0 <= i < lines@.len() ==> (#[trigger] lines@[i])@ == self@[i].rendered(),
    {
        let mut lines: Vec<String> = Vec::new();
        let mut i: usize = 0;
        while i < self.segments.len()
            invariant
                i <= self.segments.len(),
                lines@.len() == i,
                forall|k: int|
                    0 <= k < i ==> (#[trigger] lines@[k])@ == self.segments@[k]@.rendered(),
            decreases self.segments.len() - i,
        {
            let line = self.segments[i].render();
            lines.push(line);
            i += 1;
        }
        lines
    }
}

} // verus!
