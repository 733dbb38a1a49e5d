//! What a session is configured with, and the handlers it registers.

use vstd::prelude::*;

verus! {

/// How the backend clocks its inputs and outputs.
#[derive(Clone, Copy, Debug, PartialEq, Eq, Structural)]
pub enum SampleRateClass {
    /// Each kind of channel runs at its own native rate.
    Native,
    /// Every channel runs at the audio rate.
    Uniform,
}

/// Settings that were refused before the backend was contacted.
#[derive(Clone, Copy, Debug, PartialEq, Eq, Structural)]
pub enum ConfigError {
    /// There is no audio output channel to render into.
    NoOutputChannels,
}

/// The configuration handed to the backend when a session starts. It does
/// not change afterwards.
#[derive(Clone, Copy, Debug, PartialEq, Eq, Structural)]
pub struct Settings {
    pub sample_rate_class: SampleRateClass,
    pub audio_in_channels: usize,
    pub audio_out_channels: usize,
    pub analog_in_channels: usize,
    pub analog_out_channels: usize,
    pub digital_channels: usize,
    pub high_performance_mode: bool,
    pub analog_outputs_persist: bool,
    pub verbose: u32,
}

/// Which of the three callbacks a session registers. Any subset is legal;
/// the empty one is a session that does nothing.
#[derive(Clone, Copy, Debug, PartialEq, Eq, Structural)]
pub struct Handlers {
    pub setup: bool,
    pub render: bool,
    pub cleanup: bool,
}

impl Handlers {
    /// No callback at all.
    pub fn none() -> (h: Handlers)
        ensures
            h == (Handlers { setup: false, render: false, cleanup: false }),
    {
        Handlers { setup: false, render: false, cleanup: false }
    }

    /// The callbacks of the ramp session: `setup` and `render`, no
    /// `cleanup`.
    pub fn ramp() -> (h: Handlers)
        ensures
            h == (Handlers { setup: true, render: true, cleanup: false }),
    {
        Handlers { setup: true, render: true, cleanup: false }
    }
}

impl Settings {
    /// Settings are consistent when there is at least one audio output
    /// channel.
    pub open spec fn consistent(self) -> bool {
        self.audio_out_channels > 0
    }

    /// The settings with the choices of the ramp session applied: uniform
    /// sample rate, high-performance mode, analog outputs that do not
    /// persist, verbosity 1. The channel counts are kept.
    pub open spec fn tuned(self) -> Settings {
        Settings {
            sample_rate_class: SampleRateClass::Uniform,
            high_performance_mode: true,
            analog_outputs_persist: false,
            verbose: 1,
            ..self
        }
    }

    /// Checks the settings without contacting anything.
    pub fn validate(&self) -> (checked: Result<(), ConfigError>)
        ensures
            self.consistent() <==> checked.is_ok(),
            !self.consistent() ==> checked == Err::<(), ConfigError>(
                ConfigError::NoOutputChannels,
            ),
    {
        if self.audio_out_channels == 0 {
            Err(ConfigError::NoOutputChannels)
        } else {
            Ok(())
        }
    }

    /// Applies the choices of the ramp session to the backend's defaults.
    pub fn for_ramp_session(self) -> (s: Settings)
        ensures
            s == self.tuned(),
    {
        Settings {
            sample_rate_class: SampleRateClass::Uniform,
            audio_in_channels: self.audio_in_channels,
            audio_out_channels: self.audio_out_channels,
            analog_in_channels: self.analog_in_channels,
            analog_out_channels: self.analog_out_channels,
            digital_channels: self.digital_channels,
            high_performance_mode: true,
            analog_outputs_persist: false,
            verbose: 1,
        }
    }
}

} // verus!
