//! The control protocol: the actions a caller may send to the playback engine.

use std::path::PathBuf;
use vstd::prelude::*;

verus! {

/// `std::path::PathBuf`, carried through the engine as an opaque value:
/// nothing is claimed of what a path holds.
#[verifier::external_type_specification]
#[verifier::external_body]
pub struct ExPathBuf(PathBuf);

/// A linear volume multiplier, held as the bit pattern of an IEEE 754
/// single-precision number. The engine hands it to the sink with each buffer
/// and never computes with it.
#[derive(Clone, Copy, Debug, PartialEq, Eq, Structural)]
pub struct Volume {
    pub bits: u32,
}

impl Volume {
    /// The multiplier is zero, of either sign: what is written with it is silent.
    pub open spec fn silent(self) -> bool {
        self.bits == 0 || self.bits == 0x8000_0000
    }

    /// The multiplier with the given bit pattern.
    pub fn from_bits(bits: u32) -> (volume: Volume)
        ensures
            volume.bits == bits,
    {
        Volume { bits }
    }

    /// The multiplier for a volume control: zero where the control stands at
    /// its minimum, so that the minimum is silent whatever the curve of the
    /// control gives there, and otherwise `curved`, what the curve gives.
    pub fn of_control(at_minimum: bool, curved: Volume) -> (volume: Volume)
        ensures
            at_minimum ==> volume.bits == 0 && volume.silent(),
            !at_minimum ==> volume == curved,
    {
        if at_minimum {
            Volume { bits: 0 }
        } else {
            curved
        }
    }

    /// The bit pattern of the multiplier.
    pub fn to_bits(&self) -> (bits: u32)
        ensures
            bits == self.bits,
    {
        self.bits
    }

    /// Whether the multiplier is zero.
    pub fn is_silent(&self) -> (silent: bool)
        ensures
            silent == self.silent(),
    {
        self.bits == 0 || self.bits == 0x8000_0000
    }
}

/// What a sink needs to know before it can be opened, taken from a decoded
/// buffer: the sample rate in hertz, the channel layout as a bit mask, and
/// the number of frames that the buffer can hold.
#[derive(Clone, Copy, Debug, PartialEq, Eq, Structural)]
pub struct OutputHint {
    pub sample_rate: u32,
    pub channels: u32,
    pub buffer_frames: u64,
}

/// An action sent to the engine over the control channel.
#[derive(Debug, PartialEq, Eq)]
pub enum PlayerAction {
    /// Drop what is loaded and load the track at this path.
    Play(PathBuf),
    /// Stop decoding and keep the track loaded.
    Pause,
    /// Go on decoding the loaded track.
    Resume,
    /// Drop what is loaded.
    Stop,
    /// Move the loaded track to this position, in milliseconds.
    Seek(u64),
    /// Use this multiplier for the buffers written from now on.
    SetVolume(Volume),
}

} // verus!
