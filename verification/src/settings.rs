//! Operator-facing parameters of a capture session.

use vstd::prelude::*;

verus! {

/// Preferences for one capture session.
#[derive(Debug, Clone, Copy)]
pub struct StreamSettings {
    /// Amplitude threshold, in thousandths of full scale, under which a chunk counts as silent.
    pub silence_level: i32,
    /// Whether the minimum and maximum level of each chunk are reported to the operator.
    pub show_amplitudes: bool,
    /// Milliseconds of unbroken silence that end an utterance.
    pub pause_length_millis: u32,
}

impl StreamSettings {
    /// Settings with every parameter chosen by the caller.
    pub fn new(silence_level: i32, show_amplitudes: bool, pause_length_millis: u32) -> (settings: Self)
        ensures
            settings.silence_level == silence_level,
            settings.show_amplitudes == show_amplitudes,
            settings.pause_length_millis == pause_length_millis,
    {
        Self { silence_level, show_amplitudes, pause_length_millis }
    }
}

impl Default for StreamSettings {
    /// A threshold of 200, amplitudes shown, and one second of pause.
    fn default() -> (settings: Self)
        ensures
            settings.silence_level == 200,
            settings.show_amplitudes,
            settings.pause_length_millis == 1000,
    {
        Self { silence_level: 200, show_amplitudes: true, pause_length_millis: 1000 }
    }
}

} // verus!
