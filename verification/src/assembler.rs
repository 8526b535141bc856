//! The utterance assembler: every chunk is appended to the utterance, measured,
//! and shown to the detector, until a pause ends the utterance.
//!
//! The assembler does no waiting of its own. Whoever owns the channel hands it
//! one event at a time and acts on what comes back.

use vstd::prelude::*;
use crate::amplitude::{chunk_is_silent, measure, range_of, AmplitudeRange};
use crate::detector::DetectorState;
use crate::error::CaptureError;
use crate::settings::StreamSettings;

verus! {

/// One block of audio as the capturing side delivered it.
///
/// The assembler keeps `samples` as they are and judges the chunk by `levels`,
/// which the capturing side works out: the amplitude of each sample in
/// thousandths of full scale, cut to an integer.
#[derive(Debug)]
pub struct Chunk<T> {
    pub samples: Vec<T>,
    pub levels: Vec<i32>,
    /// When the chunk was received, in milliseconds on the session's clock.
    pub at_millis: u64,
}

/// What the channel hands over: a chunk, or the news that no more will come.
#[derive(Debug)]
pub enum CaptureEvent<T> {
    Chunk(Chunk<T>),
    Closed,
}

/// The assembler between two chunks.
#[derive(Debug)]
pub struct Assembler<T> {
    settings: StreamSettings,
    state: DetectorState,
    buffer: Vec<T>,
}

/// Where the session stands after a chunk.
#[derive(Debug)]
pub enum Progress<T> {
    /// The utterance goes on.
    Listening(Assembler<T>),
    /// The utterance has ended: all samples received, the last chunk included.
    Finished(Vec<T>),
}

/// What one chunk led to.
#[derive(Debug)]
pub struct Heard<T> {
    /// The extremes of the chunk, where the operator asked to see them.
    pub report: Option<AmplitudeRange>,
    pub progress: Progress<T>,
}

/// A chunk as contracts see it.
pub struct ChunkModel<T> {
    pub samples: Seq<T>,
    pub levels: Seq<i32>,
    pub at_millis: u64,
}

/// An assembler as contracts see it.
pub struct AssemblerModel<T> {
    pub settings: StreamSettings,
    pub state: DetectorState,
    pub buffer: Seq<T>,
}

/// A `Progress` as contracts see it.
pub enum ProgressModel<T> {
    Listening(AssemblerModel<T>),
    Finished(Seq<T>),
}

impl<T> View for Chunk<T> {
    type V = ChunkModel<T>;

    open spec fn view(&self) -> ChunkModel<T> {
        ChunkModel { samples: self.samples@, levels: self.levels@, at_millis: self.at_millis }
    }
}

impl<T> View for Assembler<T> {
    type V = AssemblerModel<T>;

    closed spec fn view(&self) -> AssemblerModel<T> {
        AssemblerModel { settings: self.settings, state: self.state, buffer: self.buffer@ }
    }
}

impl<T> View for Progress<T> {
    type V = ProgressModel<T>;

    open spec fn view(&self) -> ProgressModel<T> {
        match self {
            Progress::Listening(assembler) => ProgressModel::Listening(assembler@),
            Progress::Finished(utterance) => ProgressModel::Finished(utterance@),
        }
    }
}

impl<T> AssemblerModel<T> {
    /// The assembler at the start of a session: active, with nothing buffered.
    pub open spec fn fresh(settings: StreamSettings) -> Self {
        AssemblerModel { settings, state: DetectorState::Active, buffer: Seq::empty() }
    }

    /// Whether the chunk counts as silent under the session's threshold.
    pub open spec fn hears_silence(self, chunk: ChunkModel<T>) -> bool {
        chunk_is_silent(chunk.levels, self.settings.silence_level as int)
    }

    /// Whether the chunk ends the utterance.
    pub open spec fn finishes_on(self, chunk: ChunkModel<T>) -> bool {
        self.state.pause_elapsed(
            self.hears_silence(chunk),
            chunk.at_millis,
            self.settings.pause_length_millis,
        )
    }

    /// The assembler after a chunk that does not end the utterance.
    pub open spec fn continued(self, chunk: ChunkModel<T>) -> Self {
        AssemblerModel {
            settings: self.settings,
            state: self.state.after(self.hears_silence(chunk), chunk.at_millis),
            buffer: self.buffer + chunk.samples,
        }
    }

    /// One step of the session. The chunk is appended in either case.
    pub open spec fn advance(self, chunk: ChunkModel<T>) -> ProgressModel<T> {
        if self.finishes_on(chunk) {
            ProgressModel::Finished(self.buffer + chunk.samples)
        } else {
            ProgressModel::Listening(self.continued(chunk))
        }
    }

    /// What the operator is shown for the chunk.
    pub open spec fn report_for(self, chunk: ChunkModel<T>) -> Option<AmplitudeRange> {
        if self.settings.show_amplitudes {
            Some(range_of(chunk.levels))
        } else {
            None
        }
    }
}

impl<T> Assembler<T> {
    /// An assembler for a new session.
    pub fn new(settings: StreamSettings) -> (assembler: Self)
        ensures
            assembler@ == AssemblerModel::<T>::fresh(settings),
    {
        Assembler { settings, state: DetectorState::Active, buffer: Vec::new() }
    }

    /// The settings of the session.
    pub fn settings(&self) -> (settings: StreamSettings)
        ensures
            settings == self@.settings,
    {
        self.settings
    }

    /// The detector's state.
    pub fn state(&self) -> (state: DetectorState)
        ensures
            state == self@.state,
    {
        self.state
    }

    /// The samples received so far.
    pub fn buffered(&self) -> (buffer: &Vec<T>)
        ensures
            buffer@ == self@.buffer,
    {
        &self.buffer
    }

    /// Takes one chunk: appends its samples, measures its levels, and lets the
    /// detector decide whether the utterance ends with it.
    pub fn receive(self, chunk: Chunk<T>) -> (heard: Heard<T>)
        ensures
            heard.report == self@.report_for(chunk@),
            heard.progress@ == self@.advance(chunk@),
    {
        let mut samples = chunk.samples;
        let range = measure(&chunk.levels);
        let silent = range.is_silent(self.settings.silence_level);
        let report = if self.settings.show_amplitudes {
            Some(range)
        } else {
            None
        };
        let mut buffer = self.buffer;
        buffer.append(&mut samples);
        match self.state.observe(silent, chunk.at_millis, self.settings.pause_length_millis) {
            None => Heard { report, progress: Progress::Finished(buffer) },
            Some(state) => Heard {
                report,
                progress: Progress::Listening(Assembler { settings: self.settings, state, buffer }),
            },
        }
    }

    /// Takes one event from the channel. A closed channel is fatal: nothing
    /// tells whether the utterance was complete, so the samples are given up.
    pub fn handle(self, event: CaptureEvent<T>) -> (outcome: Result<Heard<T>, CaptureError>)
        ensures
            match event {
                CaptureEvent::Chunk(chunk) => outcome is Ok
                    && outcome->Ok_0.report == self@.report_for(chunk@)
                    && outcome->Ok_0.progress@ == self@.advance(chunk@),
                CaptureEvent::Closed => outcome == Err::<Heard<T>, CaptureError>(
                    CaptureError::CaptureChannelClosed,
                ),
            },
    {
        match event {
            CaptureEvent::Chunk(chunk) => Ok(self.receive(chunk)),
            CaptureEvent::Closed => Err(CaptureError::CaptureChannelClosed),
        }
    }
}

} // verus!
