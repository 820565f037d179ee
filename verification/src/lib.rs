//! Host-side core for driving native audio-processing plugins: lifecycle
//! state machine, event and parameter model, I/O-configuration validation,
//! fixed-capacity containers for the native-call boundary, and the thread
//! discipline registry.
//!
//! Values that the underlying plugin interfaces exchange as IEEE-754
//! floating-point numbers (tempi, musical times, normalized parameter
//! values) are carried here as their raw bit patterns, in `u32` or `u64`
//! fields whose names end in `_bits`; the caller converts at the boundary.
use vstd::prelude::*;

pub mod audio_bus;
pub mod channel;
pub mod discovery;
pub mod error;
pub mod event;
pub mod heapless_vec;
pub mod host;
pub mod parameter;
pub mod plugin;
pub mod preset_blob;
pub mod thread_check;
pub mod track;

pub use plugin::load;

verus! {

/// Sample rate in samples per second.
pub type SampleRate = usize;

/// Block size in samples.
pub type BlockSize = usize;

/// A count or position measured in samples.
pub type Samples = usize;

/// Bit pattern of an `f64` tempo value (beats per minute).
pub type TempoBits = u64;

/// Bit pattern of an `f64` musical-time position in quarter notes.
pub type PpqTimeBits = u64;

/// Bit pattern of the `f64` value 120.0, the default tempo.
pub const DEFAULT_TEMPO_BITS: u64 = 0x405E_0000_0000_0000;

/// Transport state of the host at the time of a processing call.
#[derive(PartialEq, Eq, Clone, Copy, Debug, Structural)]
pub enum PlayingState {
    Stopped,
    Playing,
    Recording,
    OfflineRendering,
}

impl PlayingState {
    /// True in every state where the transport is advancing.
    pub fn is_playing(&self) -> (r: bool)
        ensures
            r == (*self != PlayingState::Stopped),
    {
        match self {
            PlayingState::Stopped => false,
            PlayingState::Playing => true,
            PlayingState::Recording => true,
            PlayingState::OfflineRendering => true,
        }
    }
}

impl Default for PlayingState {
    fn default() -> (r: Self)
        ensures
            r == PlayingState::Stopped,
    {
        PlayingState::Stopped
    }
}

/// Kind of the opaque platform window handle passed to `show_editor`.
#[derive(PartialEq, Eq, Clone, Copy, Debug, Structural)]
pub enum WindowIDType {
    HWND,
    XWNDX11,
    XWNDWayland,
    NSView,
    Other,
}

/// Host timing and transport details supplied with every processing call.
///
/// Fields whose names end in `_bits` carry the bit pattern of an `f64`.
#[derive(Clone, Debug)]
pub struct ProcessDetails {
    pub sample_rate: SampleRate,
    pub block_size: BlockSize,
    pub tempo_bits: TempoBits,
    pub player_time_bits: PpqTimeBits,
    pub time_signature_numerator: usize,
    pub time_signature_denominator: usize,
    pub cycle_enabled: bool,
    pub cycle_start_bits: PpqTimeBits,
    pub cycle_end_bits: PpqTimeBits,
    pub playing_state: PlayingState,
    pub bar_start_pos_bits: PpqTimeBits,
    pub nanos_bits: u64,
}

impl Default for ProcessDetails {
    fn default() -> (r: Self)
        ensures
            r.sample_rate == 44100,
            r.block_size == 512,
            r.tempo_bits == DEFAULT_TEMPO_BITS,
            r.player_time_bits == 0,
            r.time_signature_numerator == 4,
            r.time_signature_denominator == 4,
            r.cycle_enabled == false,
            r.cycle_start_bits == 0,
            r.cycle_end_bits == 0,
            r.playing_state == PlayingState::Stopped,
            r.bar_start_pos_bits == 0,
            r.nanos_bits == 0,
    {
        ProcessDetails {
            sample_rate: 44100,
            block_size: 512,
            tempo_bits: DEFAULT_TEMPO_BITS,
            player_time_bits: 0,
            time_signature_numerator: 4,
            time_signature_denominator: 4,
            cycle_enabled: false,
            cycle_start_bits: 0,
            cycle_end_bits: 0,
            playing_state: PlayingState::Stopped,
            bar_start_pos_bits: 0,
            nanos_bits: 0,
        }
    }
}

} // verus!
