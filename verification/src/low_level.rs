//! The vocabulary shared with the native PulseAudio client library.
//!
//! Nothing in this crate calls the native library. Each operation on a stream
//! is described as a [`NativeCall`]: which entry point of the "simple" API to
//! call, and with which arguments. A binding performs the call and hands the
//! answer back as plain integers.
//!
//! See also: <http://freedesktop.org/software/pulseaudio/doxygen/simple_8h.html>

use libc::{c_int, size_t};
use vstd::layout::size_of;
use vstd::prelude::*;
use vstd::string::StringSliceAdditionalSpecFns;

verus! {

broadcast use vstd::layout::layout_of_primitives;

/// The direction of information which will stream from the server.
///
/// The native library also knows "no direction" (0) and "upload" (3); neither
/// can be asked for here.
#[derive(Clone, Copy, Debug, PartialEq, Eq, Structural)]
pub enum StreamDirection {
    /// Playback stream.
    Playback,
    /// Record stream.
    Record,
}

impl StreamDirection {
    /// The number by which `pa_stream_direction_t` knows this direction.
    pub open spec fn spec_code(self) -> int {
        match self {
            StreamDirection::Playback => 1,
            StreamDirection::Record => 2,
        }
    }

    /// The number by which `pa_stream_direction_t` knows this direction.
    pub fn code(self) -> (code: c_int)
        ensures
            code == self.spec_code(),
    {
        match self {
            StreamDirection::Playback => 1,
            StreamDirection::Record => 2,
        }
    }
}

/// Wire formats of individual audio samples.
///
/// The native enumeration has more members (the big-endian and the 24 bit
/// formats); these six are the ones a stream can be opened with.
#[allow(non_camel_case_types)]
#[derive(Clone, Copy, Debug, PartialEq, Eq, Structural)]
pub enum SampleFormat {
    /// Unsigned 8 Bit PCM.
    U8,
    /// 8 Bit a-Law.
    ALAW,
    /// 8 Bit mu-Law.
    ULAW,
    /// Signed 16 Bit PCM, little endian (PC).
    S16LE,
    /// 32 Bit IEEE floating point, little endian (PC), range -1.0 to 1.0.
    FLOAT32LE,
    /// Signed 32 Bit PCM, little endian (PC).
    S32LE,
}

impl SampleFormat {
    /// The number by which `pa_sample_format_t` knows this format.
    ///
    /// The numbers are not consecutive: 4, 6 and 8 belong to the big-endian
    /// formats.
    pub open spec fn spec_code(self) -> int {
        match self {
            SampleFormat::U8 => 0,
            SampleFormat::ALAW => 1,
            SampleFormat::ULAW => 2,
            SampleFormat::S16LE => 3,
            SampleFormat::FLOAT32LE => 5,
            SampleFormat::S32LE => 7,
        }
    }

    /// The number by which `pa_sample_format_t` knows this format.
    pub fn code(self) -> (code: c_int)
        ensures
            code == self.spec_code(),
    {
        match self {
            SampleFormat::U8 => 0,
            SampleFormat::ALAW => 1,
            SampleFormat::ULAW => 2,
            SampleFormat::S16LE => 3,
            SampleFormat::FLOAT32LE => 5,
            SampleFormat::S32LE => 7,
        }
    }

    /// The size of one sample of this format, in bytes.
    pub open spec fn spec_width(self) -> nat {
        match self {
            SampleFormat::U8 => 1,
            SampleFormat::ALAW => 1,
            SampleFormat::ULAW => 1,
            SampleFormat::S16LE => 2,
            SampleFormat::FLOAT32LE => 4,
            SampleFormat::S32LE => 4,
        }
    }

    /// The size of one sample of this format, in bytes.
    pub fn width(self) -> (width: u8)
        ensures
            width == self.spec_width(),
    {
        match self {
            SampleFormat::U8 => 1,
            SampleFormat::ALAW => 1,
            SampleFormat::ULAW => 1,
            SampleFormat::S16LE => 2,
            SampleFormat::FLOAT32LE => 4,
            SampleFormat::S32LE => 4,
        }
    }

    /// The size in memory of the Rust type that carries one sample of this
    /// format: `u8` for the three 8 bit formats, `i16` and `i32` for signed
    /// PCM, and `u32` for a 32 bit float, which travels as its bit pattern.
    pub open spec fn host_size(self) -> nat {
        match self {
            SampleFormat::U8 => size_of::<u8>(),
            SampleFormat::ALAW => size_of::<u8>(),
            SampleFormat::ULAW => size_of::<u8>(),
            SampleFormat::S16LE => size_of::<i16>(),
            SampleFormat::FLOAT32LE => size_of::<u32>(),
            SampleFormat::S32LE => size_of::<i32>(),
        }
    }
}

/// For every format, the width of a sample on the wire is the size of the
/// Rust type that carries it.
pub proof fn lemma_width_is_host_size(format: SampleFormat)
    ensures
        format.spec_width() == format.host_size(),
{
}

/// A connection of the native library, known by the address the library gave
/// it. The address is never followed here.
#[allow(non_camel_case_types)]
#[derive(Clone, Copy, Debug, PartialEq, Eq, Structural)]
pub struct pa_simple {
    /// The address of the native connection object; 0 is the null pointer.
    pub addr: usize,
}

impl pa_simple {
    /// Whether this is the null pointer, which the native library returns in
    /// place of a connection it could not open.
    pub fn is_null(self) -> (null: bool)
        ensures
            null == (self.addr == 0),
    {
        self.addr == 0
    }
}

/// The three fields of the native `pa_sample_spec`.
#[allow(non_camel_case_types)]
#[derive(Clone, Copy, Debug, PartialEq, Eq, Structural)]
pub struct pa_sample_spec {
    /// The sample format, as its native number.
    pub format: c_int,
    /// The sample rate in Hz.
    pub rate: u32,
    /// The number of channels.
    pub channels: u8,
}

/// One call of the native "simple" API, with the arguments that this crate
/// chooses. Buffers and the error slot are the binding's to supply.
#[derive(Debug, PartialEq, Eq)]
pub enum NativeCall {
    /// `pa_simple_new`. The server, the device, the channel map and the
    /// buffer attributes are not part of the call: they are always the native
    /// defaults (null).
    New {
        /// Descriptive name for the client.
        name: String,
        /// Playback or record.
        dir: StreamDirection,
        /// Descriptive name for the stream.
        stream_name: String,
        /// Format, rate and channels of the stream.
        sample_spec: pa_sample_spec,
    },
    /// `pa_simple_free`.
    Free { pa: pa_simple },
    /// `pa_simple_write` of `bytes` bytes from the caller's buffer.
    Write { pa: pa_simple, bytes: size_t },
    /// `pa_simple_drain`.
    Drain { pa: pa_simple },
    /// `pa_simple_read` of `bytes` bytes into the caller's buffer.
    Read { pa: pa_simple, bytes: size_t },
    /// `pa_simple_get_latency`.
    GetLatency { pa: pa_simple },
    /// `pa_simple_flush`.
    Flush { pa: pa_simple },
}

impl NativeCall {
    /// The connection that the call acts on; `pa_simple_new` acts on none.
    pub open spec fn target(self) -> Option<pa_simple> {
        match self {
            NativeCall::New { .. } => None,
            NativeCall::Free { pa } => Some(pa),
            NativeCall::Write { pa, .. } => Some(pa),
            NativeCall::Drain { pa } => Some(pa),
            NativeCall::Read { pa, .. } => Some(pa),
            NativeCall::GetLatency { pa } => Some(pa),
            NativeCall::Flush { pa } => Some(pa),
        }
    }
}

/// What a C string holds for a piece of text: the bytes of its UTF-8
/// encoding, then one zero byte.
pub open spec fn c_string_of(text: Seq<u8>) -> Seq<u8> {
    text.push(0u8)
}

/// The zero-terminated bytes to hand to the native library for `text`, or
/// `None` where `text` itself holds a zero byte, which no C string can carry.
pub fn null_terminated(text: &str) -> (bytes: Option<Vec<u8>>)
    ensures
        bytes is Some <==> !text.spec_bytes().contains(0u8),
        bytes matches Some(b) ==> b@ == c_string_of(text.spec_bytes()),
{
    let raw = text.as_bytes();
    let mut bytes: Vec<u8> = Vec::new();
    let mut i: usize = 0;
    while i < raw.len()
        invariant
            i <= raw@.len(),
            raw@ == text.spec_bytes(),
            bytes@ == raw@.subrange(0, i as int),
            forall|j: int| 0 <= j < i ==> raw@[j] != 0u8,
        decreases raw@.len() - i,
    {
        let byte = raw[i];
        if byte == 0 {
            return None;
        }
        bytes.push(byte);
        i += 1;
        assert(bytes@ == raw@.subrange(0, i as int));
    }
    assert(raw@.subrange(0, i as int) == raw@);
    bytes.push(0);
    Some(bytes)
}

} // verus!
