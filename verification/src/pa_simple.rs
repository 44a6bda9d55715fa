//! Streams of the PulseAudio "simple" API, without the I/O.
//!
//! A [`Builder`] collects the parameters of a connection. Its typed factory
//! methods plan the opening of a stream; once the native library has
//! answered, the plan becomes a [`Reader`] or a [`Writer`], or an [`Error`].
//! Every method of an open stream returns the [`NativeCall`] to make, and the
//! functions [`handle_error`], [`latency_result`] and [`flush_result`] say
//! what the answer to such a call means.

use crate::low_level::{pa_sample_spec, pa_simple, NativeCall, SampleFormat, StreamDirection};
use crate::protocol::{Opening, Operation, Stream};
use core::marker::PhantomData;
use libc::c_int;
use vstd::layout::size_of;
use vstd::prelude::*;

verus! {

broadcast use {vstd::layout::layout_of_primitives, vstd::layout::layout_of_slices};

/// A native call that failed: the error code that the native library
/// reported, and the library's own description of that code.
#[derive(Debug, PartialEq, Eq)]
pub struct Error {
    /// The native error code.
    pub code: c_int,
    /// What the native library says the code means.
    pub description: String,
}

/// Turns the error code that a native call left behind into a result.
///
/// Code 0 is success, and `describe` is not called. Any other code is an
/// error, which carries the code and what `describe` (the native
/// `pa_strerror`) says of it.
pub fn handle_error<F: FnOnce(c_int) -> String>(err_code: c_int, describe: F) -> (result: Result<
    (),
    Error,
>)
    requires
        err_code != 0 ==> describe.requires((err_code,)),
    ensures
        result is Ok <==> err_code == 0,
        result matches Err(e) ==> e.code == err_code && describe.ensures(
            (err_code,),
            e.description,
        ),
{
    if err_code != 0 {
        let description = describe(err_code);
        Err(Error { code: err_code, description })
    } else {
        Ok(())
    }
}

/// What `pa_simple_get_latency` answered: the latency in microseconds, unless
/// the call left an error code behind.
pub fn latency_result<F: FnOnce(c_int) -> String>(
    latency: u64,
    err_code: c_int,
    describe: F,
) -> (result: Result<u64, Error>)
    requires
        err_code != 0 ==> describe.requires((err_code,)),
    ensures
        result is Ok <==> err_code == 0,
        result matches Ok(usec) ==> usec == latency,
        result matches Err(e) ==> e.code == err_code && describe.ensures(
            (err_code,),
            e.description,
        ),
{
    match handle_error(err_code, describe) {
        Ok(()) => Ok(latency),
        Err(e) => Err(e),
    }
}

/// What `pa_simple_flush` answered: its return value, widened to 64 bits,
/// unless the call left an error code behind.
pub fn flush_result<F: FnOnce(c_int) -> String>(
    status: c_int,
    err_code: c_int,
    describe: F,
) -> (result: Result<i64, Error>)
    requires
        err_code != 0 ==> describe.requires((err_code,)),
    ensures
        result is Ok <==> err_code == 0,
        result matches Ok(wide) ==> wide == status,
        result matches Err(e) ==> e.code == err_code && describe.ensures(
            (err_code,),
            e.description,
        ),
{
    match handle_error(err_code, describe) {
        Ok(()) => Ok(status as i64),
        Err(e) => Err(e),
    }
}

/// What a [`Builder`] stands for: the names and the sample specification of
/// the connection to come.
pub struct ConnectionDescriptor {
    /// Descriptive name for the client.
    pub name: Seq<char>,
    /// Descriptive name for the stream.
    pub stream_name: Seq<char>,
    /// Format, rate and channels.
    pub sample_spec: pa_sample_spec,
}

impl ConnectionDescriptor {
    /// This descriptor with the format replaced.
    pub open spec fn with_format(self, format: SampleFormat) -> ConnectionDescriptor {
        ConnectionDescriptor {
            sample_spec: pa_sample_spec {
                format: format.spec_code() as c_int,
                ..self.sample_spec
            },
            ..self
        }
    }

    /// Whether `call` is the `pa_simple_new` that opens exactly this
    /// connection in direction `dir`.
    pub open spec fn opened_by(self, dir: StreamDirection, call: NativeCall) -> bool {
        &&& call matches NativeCall::New { name, dir: d, stream_name, sample_spec }
        &&& name@ == self.name
        &&& d == dir
        &&& stream_name@ == self.stream_name
        &&& sample_spec == self.sample_spec
    }
}

/// Manager type for constructing objects that can either read or write samples
/// to pulseaudio.
pub struct Builder {
    /// descriptive name for client
    name: String,
    /// descriptive name for a stream (e.g., song title)
    stream_name: String,
    sample_spec: pa_sample_spec,
}

impl View for Builder {
    type V = ConnectionDescriptor;

    closed spec fn view(&self) -> ConnectionDescriptor {
        ConnectionDescriptor {
            name: self.name@,
            stream_name: self.stream_name@,
            sample_spec: self.sample_spec,
        }
    }
}

impl Builder {
    /// Constructs a new Builder: signed 16 bit PCM, 44100 Hz, one channel.
    pub fn new(name: String, stream_name: String) -> (builder: Builder)
        ensures
            builder@ == (ConnectionDescriptor {
                name: name@,
                stream_name: stream_name@,
                sample_spec: pa_sample_spec {
                    format: SampleFormat::S16LE.spec_code() as c_int,
                    rate: 44100,
                    channels: 1,
                },
            }),
    {
        let sample_spec = pa_sample_spec {
            format: SampleFormat::S16LE.code(),
            rate: 44100,
            channels: 1,
        };
        Builder { name: name, stream_name: stream_name, sample_spec: sample_spec }
    }

    /// Sets the sample rate in Hz.
    pub fn rate(self, rate: u32) -> (builder: Builder)
        ensures
            builder@ == (ConnectionDescriptor {
                sample_spec: pa_sample_spec { rate: rate, ..self@.sample_spec },
                ..self@
            }),
    {
        let mut builder = self;
        builder.sample_spec.rate = rate;
        builder
    }

    /// Sets the number of channels.
    pub fn channels(self, channels: u8) -> (builder: Builder)
        ensures
            builder@ == (ConnectionDescriptor {
                sample_spec: pa_sample_spec { channels: channels, ..self@.sample_spec },
                ..self@
            }),
    {
        let mut builder = self;
        builder.sample_spec.channels = channels;
        builder
    }

    /// The `pa_simple_new` that opens this connection in direction `dir`.
    fn open_call(&self, dir: StreamDirection) -> (call: NativeCall)
        ensures
            self@.opened_by(dir, call),
    {
        NativeCall::New {
            name: self.name.clone(),
            dir: dir,
            stream_name: self.stream_name.clone(),
            sample_spec: self.sample_spec,
        }
    }

    /// Builds a Reader, as far as that goes without the native library.
    fn reader<T>(&self, field_size: u8) -> (pending: PendingReader<T>)
        requires
            field_size as nat == size_of::<T>(),
        ensures
            self@.opened_by(StreamDirection::Record, pending@.call),
            pending@.width == field_size,
    {
        PendingReader {
            call: self.open_call(StreamDirection::Record),
            field_size: field_size,
            phantom: PhantomData,
        }
    }

    /// Builds a Writer, as far as that goes without the native library.
    fn writer<T>(&self, field_size: u8) -> (pending: PendingWriter<T>)
        requires
            field_size as nat == size_of::<T>(),
        ensures
            self@.opened_by(StreamDirection::Playback, pending@.call),
            pending@.width == field_size,
    {
        PendingWriter {
            call: self.open_call(StreamDirection::Playback),
            field_size: field_size,
            phantom: PhantomData,
        }
    }

    /// Builds a Reader that returns 8 bit PCM.
    pub fn reader_u8(&mut self) -> (pending: PendingReader<u8>)
        ensures
            final(self)@ == old(self)@.with_format(SampleFormat::U8),
            final(self)@.opened_by(StreamDirection::Record, pending@.call),
            pending@.width == SampleFormat::U8.spec_width(),
    {
        let format = SampleFormat::U8;
        self.sample_spec.format = format.code();
        self.reader(format.width())
    }

    /// Builds a Reader that returns 8 bit mu-Law.
    pub fn reader_ulaw(&mut self) -> (pending: PendingReader<u8>)
        ensures
            final(self)@ == old(self)@.with_format(SampleFormat::ULAW),
            final(self)@.opened_by(StreamDirection::Record, pending@.call),
            pending@.width == SampleFormat::ULAW.spec_width(),
    {
        let format = SampleFormat::ULAW;
        self.sample_spec.format = format.code();
        self.reader(format.width())
    }

    /// Builds a Reader that returns 8 bit a-Law.
    pub fn reader_alaw(&mut self) -> (pending: PendingReader<u8>)
        ensures
            final(self)@ == old(self)@.with_format(SampleFormat::ALAW),
            final(self)@.opened_by(StreamDirection::Record, pending@.call),
            pending@.width == SampleFormat::ALAW.spec_width(),
    {
        let format = SampleFormat::ALAW;
        self.sample_spec.format = format.code();
        self.reader(format.width())
    }

    /// Builds a Reader that returns 16 bit signed PCM.
    pub fn reader_i16(&mut self) -> (pending: PendingReader<i16>)
        ensures
            final(self)@ == old(self)@.with_format(SampleFormat::S16LE),
            final(self)@.opened_by(StreamDirection::Record, pending@.call),
            pending@.width == SampleFormat::S16LE.spec_width(),
    {
        let format = SampleFormat::S16LE;
        self.sample_spec.format = format.code();
        self.reader(format.width())
    }

    /// Builds a Reader that returns 32 bit signed PCM.
    pub fn reader_i32(&mut self) -> (pending: PendingReader<i32>)
        ensures
            final(self)@ == old(self)@.with_format(SampleFormat::S32LE),
            final(self)@.opened_by(StreamDirection::Record, pending@.call),
            pending@.width == SampleFormat::S32LE.spec_width(),
    {
        let format = SampleFormat::S32LE;
        self.sample_spec.format = format.code();
        self.reader(format.width())
    }

    /// Builds a Reader that returns 32 bit floating point samples in the range
    /// `[-1.0, 1.0]`, each as the `u32` that holds its bits.
    pub fn reader_f32(&mut self) -> (pending: PendingReader<u32>)
        ensures
            final(self)@ == old(self)@.with_format(SampleFormat::FLOAT32LE),
            final(self)@.opened_by(StreamDirection::Record, pending@.call),
            pending@.width == SampleFormat::FLOAT32LE.spec_width(),
    {
        let format = SampleFormat::FLOAT32LE;
        self.sample_spec.format = format.code();
        self.reader(format.width())
    }

    /// Builds a Writer that takes 8 bit PCM.
    pub fn writer_u8(&mut self) -> (pending: PendingWriter<u8>)
        ensures
            final(self)@ == old(self)@.with_format(SampleFormat::U8),
            final(self)@.opened_by(StreamDirection::Playback, pending@.call),
            pending@.width == SampleFormat::U8.spec_width(),
    {
        let format = SampleFormat::U8;
        self.sample_spec.format = format.code();
        self.writer(format.width())
    }

    /// Builds a Writer that takes 8 bit mu-Law.
    pub fn writer_ulaw(&mut self) -> (pending: PendingWriter<u8>)
        ensures
            final(self)@ == old(self)@.with_format(SampleFormat::ULAW),
            final(self)@.opened_by(StreamDirection::Playback, pending@.call),
            pending@.width == SampleFormat::ULAW.spec_width(),
    {
        let format = SampleFormat::ULAW;
        self.sample_spec.format = format.code();
        self.writer(format.width())
    }

    /// Builds a Writer that takes 8 bit a-Law.
    pub fn writer_alaw(&mut self) -> (pending: PendingWriter<u8>)
        ensures
            final(self)@ == old(self)@.with_format(SampleFormat::ALAW),
            final(self)@.opened_by(StreamDirection::Playback, pending@.call),
            pending@.width == SampleFormat::ALAW.spec_width(),
    {
        let format = SampleFormat::ALAW;
        self.sample_spec.format = format.code();
        self.writer(format.width())
    }

    /// Builds a Writer that takes 16 bit signed PCM.
    pub fn writer_i16(&mut self) -> (pending: PendingWriter<i16>)
        ensures
            final(self)@ == old(self)@.with_format(SampleFormat::S16LE),
            final(self)@.opened_by(StreamDirection::Playback, pending@.call),
            pending@.width == SampleFormat::S16LE.spec_width(),
    {
        let format = SampleFormat::S16LE;
        self.sample_spec.format = format.code();
        self.writer(format.width())
    }

    /// Builds a Writer that takes 32 bit signed PCM.
    pub fn writer_i32(&mut self) -> (pending: PendingWriter<i32>)
        ensures
            final(self)@ == old(self)@.with_format(SampleFormat::S32LE),
            final(self)@.opened_by(StreamDirection::Playback, pending@.call),
            pending@.width == SampleFormat::S32LE.spec_width(),
    {
        let format = SampleFormat::S32LE;
        self.sample_spec.format = format.code();
        self.writer(format.width())
    }

    /// Builds a Writer that takes 32 bit floating point samples in the range
    /// `[-1.0, 1.0]`, each as the `u32` that holds its bits.
    pub fn writer_f32(&mut self) -> (pending: PendingWriter<u32>)
        ensures
            final(self)@ == old(self)@.with_format(SampleFormat::FLOAT32LE),
            final(self)@.opened_by(StreamDirection::Playback, pending@.call),
            pending@.width == SampleFormat::FLOAT32LE.spec_width(),
    {
        let format = SampleFormat::FLOAT32LE;
        self.sample_spec.format = format.code();
        self.writer(format.width())
    }
}

/// A capture stream that is being opened: the native call has been chosen,
/// its answer is still to come.
pub struct PendingReader<T> {
    call: NativeCall,
    /// size of underlying sample type in bytes
    field_size: u8,
    phantom: PhantomData<T>,
}

impl<T> View for PendingReader<T> {
    type V = Opening;

    closed spec fn view(&self) -> Opening {
        Opening { call: self.call, width: self.field_size as nat }
    }
}

impl<T> PendingReader<T> {
    #[verifier::type_invariant]
    spec fn well_formed(self) -> bool {
        self.field_size as nat == size_of::<T>()
    }

    /// The call that opens the stream.
    pub fn call(&self) -> (call: &NativeCall)
        ensures
            *call == self@.call,
    {
        &self.call
    }

    /// The size of one sample in bytes, which is the size of a `T`.
    pub fn field_size(&self) -> (width: u8)
        ensures
            width == self@.width,
            width == size_of::<T>(),
    {
        proof {
            use_type_invariant(self);
        }
        self.field_size
    }

    /// Takes the answer of the native library to the call: the connection
    /// `pa`, and the error code `err_code`.
    ///
    /// There is a Reader exactly when the code is 0 and `pa` is a
    /// connection, not the null pointer. Otherwise the error carries the code
    /// and what `describe` (the native `pa_strerror`) says of it.
    pub fn opened<F: FnOnce(c_int) -> String>(
        self,
        pa: pa_simple,
        err_code: c_int,
        describe: F,
    ) -> (result: Result<Reader<T>, Error>)
        requires
            err_code != 0 || pa.addr == 0 ==> describe.requires((err_code,)),
        ensures
            result is Ok <==> err_code == 0 && pa.addr != 0,
            result matches Ok(stream) ==> stream@ == (Stream { pa: Some(pa), width: self@.width }),
            result matches Err(e) ==> e.code == err_code && describe.ensures(
                (err_code,),
                e.description,
            ),
    {
        proof {
            use_type_invariant(&self);
        }
        if err_code == 0 && pa.is_null() {
            return Err(Error { code: err_code, description: describe(err_code) });
        }
        match handle_error(err_code, describe) {
            Ok(()) => Ok(Reader { ptr: Some(pa), field_size: self.field_size, phantom: PhantomData }),
            Err(e) => Err(e),
        }
    }
}

/// A playback stream that is being opened: the native call has been chosen,
/// its answer is still to come.
pub struct PendingWriter<T> {
    call: NativeCall,
    /// size of underlying sample type in bytes
    field_size: u8,
    phantom: PhantomData<T>,
}

impl<T> View for PendingWriter<T> {
    type V = Opening;

    closed spec fn view(&self) -> Opening {
        Opening { call: self.call, width: self.field_size as nat }
    }
}

impl<T> PendingWriter<T> {
    #[verifier::type_invariant]
    spec fn well_formed(self) -> bool {
        self.field_size as nat == size_of::<T>()
    }

    /// The call that opens the stream.
    pub fn call(&self) -> (call: &NativeCall)
        ensures
            *call == self@.call,
    {
        &self.call
    }

    /// The size of one sample in bytes, which is the size of a `T`.
    pub fn field_size(&self) -> (width: u8)
        ensures
            width == self@.width,
            width == size_of::<T>(),
    {
        proof {
            use_type_invariant(self);
        }
        self.field_size
    }

    /// Takes the answer of the native library to the call: the connection
    /// `pa`, and the error code `err_code`.
    ///
    /// There is a Writer exactly when the code is 0 and `pa` is a
    /// connection, not the null pointer. Otherwise the error carries the code
    /// and what `describe` (the native `pa_strerror`) says of it.
    pub fn opened<F: FnOnce(c_int) -> String>(
        self,
        pa: pa_simple,
        err_code: c_int,
        describe: F,
    ) -> (result: Result<Writer<T>, Error>)
        requires
            err_code != 0 || pa.addr == 0 ==> describe.requires((err_code,)),
        ensures
            result is Ok <==> err_code == 0 && pa.addr != 0,
            result matches Ok(stream) ==> stream@ == (Stream { pa: Some(pa), width: self@.width }),
            result matches Err(e) ==> e.code == err_code && describe.ensures(
                (err_code,),
                e.description,
            ),
    {
        proof {
            use_type_invariant(&self);
        }
        if err_code == 0 && pa.is_null() {
            return Err(Error { code: err_code, description: describe(err_code) });
        }
        match handle_error(err_code, describe) {
            Ok(()) => Ok(Writer { ptr: Some(pa), field_size: self.field_size, phantom: PhantomData }),
            Err(e) => Err(e),
        }
    }
}

/// The size in bytes of the samples in `buf`, given the size of one.
fn transfer_size<T>(buf: &[T], field_size: u8) -> (bytes: usize)
    requires
        field_size as nat == size_of::<T>(),
    ensures
        bytes == buf@.len() * field_size,
{
    // `buf` is in memory, so its size fits in `usize` and the product cannot overflow.
    let _ = core::mem::size_of_val(buf);
    buf.len() * (field_size as usize)
}

/// Reader of audio samples from a pulseaudio source.
pub struct Reader<T> {
    /// The native connection, until the Reader is closed.
    ptr: Option<pa_simple>,
    /// size of underlying sample type in bytes
    field_size: u8,
    phantom: PhantomData<T>,
}

impl<T> View for Reader<T> {
    type V = Stream;

    closed spec fn view(&self) -> Stream {
        Stream { pa: self.ptr, width: self.field_size as nat }
    }
}

impl<T> Reader<T> {
    #[verifier::type_invariant]
    spec fn well_formed(self) -> bool {
        self.field_size as nat == size_of::<T>()
    }

    /// The native connection that the Reader owns, or `None` once it is
    /// closed.
    pub fn handle(&self) -> (handle: Option<pa_simple>)
        ensures
            handle == self@.pa,
    {
        self.ptr
    }

    /// The size of one sample in bytes, which is the size of a `T`.
    pub fn field_size(&self) -> (width: u8)
        ensures
            width == self@.width,
            width == size_of::<T>(),
    {
        proof {
            use_type_invariant(self);
        }
        self.field_size
    }

    /// Reads samples into buffer: plans the `pa_simple_read` that fills all
    /// of `buf`, which is `buf.len()` times the size of a sample in bytes.
    /// [`handle_error`] takes the answer.
    pub fn read(&self, buf: &[T]) -> (call: Option<NativeCall>)
        ensures
            call == self@.plan(Operation::Read { len: buf@.len() }),
            buf@.len() * self@.width <= usize::MAX,
            self@.width == size_of::<T>(),
    {
        proof {
            use_type_invariant(self);
        }
        let bytes = transfer_size(buf, self.field_size);
        match self.ptr {
            Some(pa) => Some(NativeCall::Read { pa, bytes }),
            None => None,
        }
    }

    /// Gets the record latency in μsecs: plans the `pa_simple_get_latency`.
    /// [`latency_result`] takes the answer.
    pub fn get_latency(&self) -> (call: Option<NativeCall>)
        ensures
            call == self@.plan(Operation::GetLatency),
    {
        match self.ptr {
            Some(pa) => Some(NativeCall::GetLatency { pa }),
            None => None,
        }
    }

    /// Flushes the record buffer: plans the `pa_simple_flush`.
    /// [`flush_result`] takes the answer.
    pub fn flush(&self) -> (call: Option<NativeCall>)
        ensures
            call == self@.plan(Operation::Flush),
    {
        match self.ptr {
            Some(pa) => Some(NativeCall::Flush { pa }),
            None => None,
        }
    }

    /// Closes the Reader: plans the `pa_simple_free` of its connection and
    /// gives the connection up. A closed Reader plans no call any more.
    pub fn close(&mut self) -> (call: Option<NativeCall>)
        ensures
            call == old(self)@.plan(Operation::Close),
            final(self)@ == old(self)@.after(Operation::Close),
    {
        proof {
            use_type_invariant(&*self);
        }
        match self.ptr {
            Some(pa) => {
                self.ptr = None;
                Some(NativeCall::Free { pa })
            },
            None => None,
        }
    }
}

/// Writer of audio samples to a pulseaudio sink.
pub struct Writer<T> {
    /// The native connection, until the Writer is closed.
    ptr: Option<pa_simple>,
    /// size of underlying sample type in bytes
    field_size: u8,
    phantom: PhantomData<T>,
}

impl<T> View for Writer<T> {
    type V = Stream;

    closed spec fn view(&self) -> Stream {
        Stream { pa: self.ptr, width: self.field_size as nat }
    }
}

impl<T> Writer<T> {
    #[verifier::type_invariant]
    spec fn well_formed(self) -> bool {
        self.field_size as nat == size_of::<T>()
    }

    /// The native connection that the Writer owns, or `None` once it is
    /// closed.
    pub fn handle(&self) -> (handle: Option<pa_simple>)
        ensures
            handle == self@.pa,
    {
        self.ptr
    }

    /// The size of one sample in bytes, which is the size of a `T`.
    pub fn field_size(&self) -> (width: u8)
        ensures
            width == self@.width,
            width == size_of::<T>(),
    {
        proof {
            use_type_invariant(self);
        }
        self.field_size
    }

    /// Writes samples from buffer to pulseaudio: plans the `pa_simple_write`
    /// that takes all of `buf`, which is `buf.len()` times the size of a
    /// sample in bytes. [`handle_error`] takes the answer.
    pub fn write(&self, buf: &[T]) -> (call: Option<NativeCall>)
        ensures
            call == self@.plan(Operation::Write { len: buf@.len() }),
            buf@.len() * self@.width <= usize::MAX,
            self@.width == size_of::<T>(),
    {
        proof {
            use_type_invariant(self);
        }
        let bytes = transfer_size(buf, self.field_size);
        match self.ptr {
            Some(pa) => Some(NativeCall::Write { pa, bytes }),
            None => None,
        }
    }

    /// Gets the playback latency in μsecs: plans the `pa_simple_get_latency`.
    /// [`latency_result`] takes the answer.
    pub fn get_latency(&self) -> (call: Option<NativeCall>)
        ensures
            call == self@.plan(Operation::GetLatency),
    {
        match self.ptr {
            Some(pa) => Some(NativeCall::GetLatency { pa }),
            None => None,
        }
    }

    /// Wait until all data already written is played by the daemon: plans
    /// the `pa_simple_drain`. [`handle_error`] takes the answer.
    pub fn drain(&self) -> (call: Option<NativeCall>)
        ensures
            call == self@.plan(Operation::Drain),
    {
        match self.ptr {
            Some(pa) => Some(NativeCall::Drain { pa }),
            None => None,
        }
    }

    /// Flushes the playback buffer: plans the `pa_simple_flush`.
    /// [`flush_result`] takes the answer.
    pub fn flush(&self) -> (call: Option<NativeCall>)
        ensures
            call == self@.plan(Operation::Flush),
    {
        match self.ptr {
            Some(pa) => Some(NativeCall::Flush { pa }),
            None => None,
        }
    }

    /// Closes the Writer: plans the `pa_simple_free` of its connection and
    /// gives the connection up. A closed Writer plans no call any more.
    pub fn close(&mut self) -> (call: Option<NativeCall>)
        ensures
            call == old(self)@.plan(Operation::Close),
            final(self)@ == old(self)@.after(Operation::Close),
    {
        proof {
            use_type_invariant(&*self);
        }
        match self.ptr {
            Some(pa) => {
                self.ptr = None;
                Some(NativeCall::Free { pa })
            },
            None => None,
        }
    }
}

} // verus!
