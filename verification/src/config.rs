//! Negotiation of the input configuration.
//!
//! The audio subsystem is asked elsewhere; what it reported arrives here as
//! plain values. A mono default is taken as it stands. Otherwise the
//! configurations that the device supports are gone through in the order
//! reported, each forced to the target sample rate, until one is mono; if none
//! is, the last one stands, for the caller to reject.

use vstd::prelude::*;
use crate::error::CaptureError;

verus! {

/// The sample rate that the recogniser expects, in hertz.
pub const TARGET_SAMPLE_RATE: u32 = 16000;

/// A resolved input configuration, as far as the negotiation reads it.
#[derive(Debug, Clone, Copy, PartialEq, Eq, Structural)]
pub struct InputFormat {
    pub channels: u16,
    pub sample_rate: u32,
}

/// Which of the reported configurations the negotiation settled on.
#[derive(Debug, Clone, Copy, PartialEq, Eq, Structural)]
pub enum Selection {
    /// The device's default, as reported.
    Default,
    /// The supported configuration at this place in the device's list, forced
    /// to the target sample rate.
    Candidate(usize),
}

/// The input device of a session with its negotiated configuration and the
/// session's silence threshold. `D` is the subsystem's handle for the device.
#[derive(Debug)]
pub struct StreamConfig<D> {
    device: D,
    config: InputFormat,
    selection: Selection,
    silence_level: i32,
}

/// A `StreamConfig` as contracts see it.
pub struct StreamConfigModel<D> {
    pub device: D,
    pub config: InputFormat,
    pub selection: Selection,
    pub silence_level: i32,
}

impl<D> View for StreamConfig<D> {
    type V = StreamConfigModel<D>;

    closed spec fn view(&self) -> StreamConfigModel<D> {
        StreamConfigModel {
            device: self.device,
            config: self.config,
            selection: self.selection,
            silence_level: self.silence_level,
        }
    }
}

/// `choice` is what the negotiation settles on for a default with
/// `default_channels` channels and supported configurations with
/// `candidates` channels, in the order reported. Exactly one choice meets it.
pub open spec fn is_selection(default_channels: u16, candidates: Seq<u16>, choice: Selection) -> bool {
    match choice {
        Selection::Default => default_channels == 1 || candidates.len() == 0,
        Selection::Candidate(i) => {
            &&& default_channels != 1
            &&& i < candidates.len()
            &&& forall|k: int| 0 <= k < i ==> candidates[k] != 1
            &&& candidates[i as int] == 1 || i == candidates.len() - 1
        },
    }
}

/// The configuration that a choice stands for.
pub open spec fn format_of(default_format: InputFormat, candidates: Seq<u16>, choice: Selection) -> InputFormat {
    match choice {
        Selection::Default => default_format,
        Selection::Candidate(i) => InputFormat {
            channels: candidates[i as int],
            sample_rate: TARGET_SAMPLE_RATE,
        },
    }
}

/// What the subsystem reported is enough to settle on a configuration: the
/// default is known and, unless it is mono, so is the list of supported
/// configurations.
pub open spec fn report_complete(default_format: Option<InputFormat>, candidates: Option<Vec<u16>>) -> bool {
    default_format matches Some(format) && (format.channels == 1 || candidates is Some)
}

/// The channel counts to choose from: those reported, or none where the list
/// was not needed.
pub open spec fn candidates_of(candidates: Option<Vec<u16>>) -> Seq<u16> {
    match candidates {
        Some(list) => list@,
        None => Seq::empty(),
    }
}

/// The negotiation settles on one choice only.
pub proof fn lemma_selection_unique(default_channels: u16, candidates: Seq<u16>, a: Selection, b: Selection)
    requires
        is_selection(default_channels, candidates, a),
        is_selection(default_channels, candidates, b),
    ensures
        a == b,
{
    if let Selection::Candidate(i) = a {
        if let Selection::Candidate(j) = b {
            if i < j {
                assert(candidates[i as int] != 1);
            }
            if j < i {
                assert(candidates[j as int] != 1);
            }
        }
    }
}

/// Where any mono configuration is on offer, the negotiation ends on one.
pub proof fn lemma_mono_is_found(default_format: InputFormat, candidates: Seq<u16>, choice: Selection)
    requires
        is_selection(default_format.channels, candidates, choice),
        default_format.channels == 1 || exists|k: int| 0 <= k < candidates.len() && candidates[k] == 1,
    ensures
        format_of(default_format, candidates, choice).channels == 1,
{
}

impl InputFormat {
    /// Whether the configuration has exactly one channel.
    pub fn is_mono(&self) -> (mono: bool)
        ensures
            mono == (self.channels == 1),
    {
        self.channels == 1
    }
}

/// Settles on a configuration, given the channel count of the default and
/// those of the supported configurations in the order reported.
pub fn select_format(default_channels: u16, candidate_channels: &Vec<u16>) -> (choice: Selection)
    ensures
        is_selection(default_channels, candidate_channels@, choice),
{
    if default_channels == 1 || candidate_channels.len() == 0 {
        return Selection::Default;
    }
    let mut i: usize = 0;
    while i + 1 < candidate_channels.len() && candidate_channels[i] != 1
        invariant
            i < candidate_channels.len(),
            forall|k: int| 0 <= k < i ==> candidate_channels@[k] != 1,
        decreases candidate_channels.len() - i,
    {
        i += 1;
    }
    Selection::Candidate(i)
}

impl<D> StreamConfig<D> {
    /// Builds the configuration of a session from what the subsystem reported:
    /// the default input device, if there is one; that device's default
    /// configuration, if it could report it; and the channel counts of the
    /// configurations it supports, if it could report those.
    ///
    /// Fails with `DeviceNotFound` where there is no device, and with
    /// `ConfigQueryError` where a report that the negotiation needs is
    /// missing. The list of supported configurations is needed only where the
    /// default is not mono.
    pub fn new(
        silence_level: i32,
        device: Option<D>,
        default_format: Option<InputFormat>,
        candidates: Option<Vec<u16>>,
    ) -> (outcome: Result<Self, CaptureError>)
        ensures
            device is None ==> outcome == Err::<Self, CaptureError>(CaptureError::DeviceNotFound),
            device is Some && !report_complete(default_format, candidates) ==> outcome == Err::<
                Self,
                CaptureError,
            >(CaptureError::ConfigQueryError),
            device is Some && report_complete(default_format, candidates) ==> {
                &&& outcome is Ok
                &&& outcome->Ok_0@.device == device->Some_0
                &&& outcome->Ok_0@.silence_level == silence_level
                &&& is_selection(
                    default_format->Some_0.channels,
                    candidates_of(candidates),
                    outcome->Ok_0@.selection,
                )
                &&& outcome->Ok_0@.config == format_of(
                    default_format->Some_0,
                    candidates_of(candidates),
                    outcome->Ok_0@.selection,
                )
            },
    {
        let device = match device {
            Some(device) => device,
            None => return Err(CaptureError::DeviceNotFound),
        };
        let default_format = match default_format {
            Some(format) => format,
            None => return Err(CaptureError::ConfigQueryError),
        };
        if default_format.is_mono() {
            return Ok(
                StreamConfig { device, config: default_format, selection: Selection::Default, silence_level },
            );
        }
        let candidates = match candidates {
            Some(list) => list,
            None => return Err(CaptureError::ConfigQueryError),
        };
        let selection = select_format(default_format.channels, &candidates);
        let config = match selection {
            Selection::Default => default_format,
            Selection::Candidate(i) => InputFormat {
                channels: candidates[i],
                sample_rate: TARGET_SAMPLE_RATE,
            },
        };
        Ok(StreamConfig { device, config, selection, silence_level })
    }

    /// The device in use.
    pub fn device(&self) -> (device: &D)
        ensures
            *device == self@.device,
    {
        &self.device
    }

    /// The negotiated configuration.
    pub fn supported_config(&self) -> (config: &InputFormat)
        ensures
            *config == self@.config,
    {
        &self.config
    }

    /// Which of the reported configurations was settled on.
    pub fn selection(&self) -> (selection: Selection)
        ensures
            selection == self@.selection,
    {
        self.selection
    }

    /// The silence threshold of the session.
    pub fn silence_level(&self) -> (level: i32)
        ensures
            level == self@.silence_level,
    {
        self.silence_level
    }
}

} // verus!
