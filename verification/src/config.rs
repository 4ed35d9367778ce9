//! The configuration of the listener: the parameters of the audio stream, of
//! the recordings and of the detection engine, in one place.

use crate::precise::{get_runner, EngineState, PreciseEngine};
use vstd::prelude::*;

verus! {

/// The sample rate of the audio stream, in samples per second.
pub const SAMPLE_RATE: u32 = 16_000;

/// The number of channels of the audio stream: mono.
pub const CHANNELS: u8 = 1;

/// The number of bits of one sample.
pub const BITS_PER_SAMPLE: u16 = 16;

/// The number of frames that the audio subsystem hands to the callback at a
/// time.
pub const FRAMES_PER_BUFFER: u32 = 256;

/// The number of samples in a chunk for the detection engine.
pub const CHUNK_SIZE: usize = 2048;

/// The number of samples that the sample channel holds.
pub const CHANNEL_CAPACITY: usize = 65_536;

/// The number of seconds that a listening window lasts.
pub const LISTEN_SECONDS: u64 = 5;

/// The format of a recording: a WAV container of signed integer samples.
#[derive(Clone, Copy, Debug, PartialEq, Eq, Structural)]
pub struct WavFormat {
    /// The number of channels.
    pub channels: u16,
    /// The number of samples per second.
    pub sample_rate: u32,
    /// The number of bits of one sample.
    pub bits_per_sample: u16,
}

/// The format of a recording of 16-bit samples with the given number of
/// channels and sample rate.
pub fn wav_spec(channels: u16, sample_rate: u32) -> (format: WavFormat)
    ensures
        format == (WavFormat { channels, sample_rate, bits_per_sample: BITS_PER_SAMPLE }),
{
    WavFormat { channels, sample_rate, bits_per_sample: BITS_PER_SAMPLE }
}

/// The parameters that an input stream is opened with, but for the latency,
/// which the device suggests.
#[derive(Clone, Copy, Debug, PartialEq, Eq, Structural)]
pub struct StreamPlan {
    /// The device to open; the system default input where none is given.
    pub device_index: Option<u32>,
    /// The number of channels.
    pub channels: i32,
    /// Whether the samples of the channels alternate in one buffer.
    pub interleaved: bool,
    /// The number of samples per second.
    pub sample_rate: u32,
    /// The number of frames handed to the callback at a time.
    pub frames_per_buffer: u32,
}

/// What the listener is set up with.
pub struct ListenerConfig {
    /// The path of the model that the engine is started with.
    pub model_path: String,
    /// The number of samples in a chunk.
    pub chunk_size: usize,
    /// The number of samples per second.
    pub sample_rate: u32,
    /// The number of channels.
    pub channels: u8,
    /// The device to capture from; the system default input where none is
    /// given.
    pub device_index: Option<u32>,
}

impl ListenerConfig {
    /// The usual setup for the given model: chunks of 2048 samples from the
    /// default input device, mono, at 16 kHz.
    pub fn standard(model_path: String) -> (config: ListenerConfig)
        ensures
            config.model_path@ == model_path@,
            config.chunk_size == CHUNK_SIZE,
            config.sample_rate == SAMPLE_RATE,
            config.channels == CHANNELS,
            config.device_index is None,
    {
        ListenerConfig {
            model_path,
            chunk_size: CHUNK_SIZE,
            sample_rate: SAMPLE_RATE,
            channels: CHANNELS,
            device_index: None,
        }
    }

    /// The format of the recordings made with this setup.
    pub fn wav_format(&self) -> (format: WavFormat)
        ensures
            format == (WavFormat {
                channels: self.channels as u16,
                sample_rate: self.sample_rate,
                bits_per_sample: BITS_PER_SAMPLE,
            }),
    {
        wav_spec(self.channels as u16, self.sample_rate)
    }

    /// The parameters to open the input stream with.
    pub fn stream_plan(&self) -> (plan: StreamPlan)
        ensures
            plan == (StreamPlan {
                device_index: self.device_index,
                channels: self.channels as i32,
                interleaved: true,
                sample_rate: self.sample_rate,
                frames_per_buffer: FRAMES_PER_BUFFER,
            }),
    {
        StreamPlan {
            device_index: self.device_index,
            channels: self.channels as i32,
            interleaved: true,
            sample_rate: self.sample_rate,
            frames_per_buffer: FRAMES_PER_BUFFER,
        }
    }

    /// A session with the detection engine for this setup, not started yet.
    pub fn runner(&self) -> (engine: PreciseEngine)
        ensures
            engine.spec_state() == EngineState::NotStarted,
            engine.spec_chunk_size() == self.chunk_size,
            engine.spec_model() == self.model_path@,
    {
        get_runner(self.model_path.clone(), self.chunk_size)
    }
}

} // verus!
