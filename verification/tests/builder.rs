//! Builder, formats and the planning of `pa_simple_new`.

use pulse_simple::low_level::{
    null_terminated, pa_sample_spec, pa_simple, NativeCall, SampleFormat, StreamDirection,
};
use pulse_simple::pa_simple::Builder;

fn builder() -> Builder {
    Builder::new(String::from("client"), String::from("tone"))
}

fn open_call(name: &str, dir: StreamDirection, stream_name: &str, format: i32, rate: u32, channels: u8) -> NativeCall {
    NativeCall::New {
        name: String::from(name),
        dir,
        stream_name: String::from(stream_name),
        sample_spec: pa_sample_spec { format, rate, channels },
    }
}

#[test]
fn format_codes_match_the_native_enumeration() {
    assert_eq!(SampleFormat::U8.code(), 0);
    assert_eq!(SampleFormat::ALAW.code(), 1);
    assert_eq!(SampleFormat::ULAW.code(), 2);
    assert_eq!(SampleFormat::S16LE.code(), 3);
    assert_eq!(SampleFormat::FLOAT32LE.code(), 5);
    assert_eq!(SampleFormat::S32LE.code(), 7);
}

#[test]
fn format_widths_are_the_documented_ones() {
    assert_eq!(SampleFormat::U8.width(), 1);
    assert_eq!(SampleFormat::ALAW.width(), 1);
    assert_eq!(SampleFormat::ULAW.width(), 1);
    assert_eq!(SampleFormat::S16LE.width(), 2);
    assert_eq!(SampleFormat::FLOAT32LE.width(), 4);
    assert_eq!(SampleFormat::S32LE.width(), 4);
}

#[test]
fn format_widths_are_the_sizes_of_the_host_types() {
    assert_eq!(SampleFormat::U8.width() as usize, std::mem::size_of::<u8>());
    assert_eq!(SampleFormat::ALAW.width() as usize, std::mem::size_of::<u8>());
    assert_eq!(SampleFormat::ULAW.width() as usize, std::mem::size_of::<u8>());
    assert_eq!(SampleFormat::S16LE.width() as usize, std::mem::size_of::<i16>());
    assert_eq!(SampleFormat::FLOAT32LE.width() as usize, std::mem::size_of::<f32>());
    assert_eq!(SampleFormat::FLOAT32LE.width() as usize, std::mem::size_of::<u32>());
    assert_eq!(SampleFormat::S32LE.width() as usize, std::mem::size_of::<i32>());
}

#[test]
fn direction_codes_match_the_native_enumeration() {
    assert_eq!(StreamDirection::Playback.code(), 1);
    assert_eq!(StreamDirection::Record.code(), 2);
}

#[test]
fn null_handle_is_recognised() {
    assert!(pa_simple { addr: 0 }.is_null());
    assert!(!pa_simple { addr: 4096 }.is_null());
}

#[test]
fn new_builder_has_the_defaults() {
    let mut b = builder();
    let pending = b.writer_i16();
    assert_eq!(*pending.call(), open_call("client", StreamDirection::Playback, "tone", 3, 44100, 1));
}

#[test]
fn rate_and_channels_are_taken_as_given() {
    let mut b = builder().rate(8000).channels(6);
    assert_eq!(*b.reader_u8().call(), open_call("client", StreamDirection::Record, "tone", 0, 8000, 6));
    let mut b = builder().rate(0).channels(0);
    assert_eq!(*b.reader_u8().call(), open_call("client", StreamDirection::Record, "tone", 0, 0, 0));
    let mut b = builder().channels(255).rate(u32::MAX);
    assert_eq!(
        *b.reader_u8().call(),
        open_call("client", StreamDirection::Record, "tone", 0, u32::MAX, 255)
    );
}

#[test]
fn later_setting_wins() {
    let mut b = builder().rate(8000).rate(96000).channels(2).channels(1);
    assert_eq!(*b.writer_u8().call(), open_call("client", StreamDirection::Playback, "tone", 0, 96000, 1));
}

#[test]
fn writer_f32_scenario() {
    let mut b = builder().rate(48000).channels(2);
    let pending = b.writer_f32();
    assert_eq!(*pending.call(), open_call("client", StreamDirection::Playback, "tone", 5, 48000, 2));
    assert_eq!(pending.field_size(), 4);
}

#[test]
fn reader_i16_scenario() {
    let mut b = builder();
    let pending = b.reader_i16();
    assert_eq!(*pending.call(), open_call("client", StreamDirection::Record, "tone", 3, 44100, 1));
    match pending.call() {
        NativeCall::New { dir, .. } => assert_eq!(dir.code(), 2),
        _ => panic!("not an open call"),
    }
    assert_eq!(pending.field_size(), 2);
}

#[test]
fn every_reader_factory_sets_format_and_width() {
    let mut b = builder();
    let p = b.reader_u8();
    assert_eq!((p.field_size(), p.call()), (1, &open_call("client", StreamDirection::Record, "tone", 0, 44100, 1)));
    let p = b.reader_alaw();
    assert_eq!((p.field_size(), p.call()), (1, &open_call("client", StreamDirection::Record, "tone", 1, 44100, 1)));
    let p = b.reader_ulaw();
    assert_eq!((p.field_size(), p.call()), (1, &open_call("client", StreamDirection::Record, "tone", 2, 44100, 1)));
    let p = b.reader_i16();
    assert_eq!((p.field_size(), p.call()), (2, &open_call("client", StreamDirection::Record, "tone", 3, 44100, 1)));
    let p = b.reader_f32();
    assert_eq!((p.field_size(), p.call()), (4, &open_call("client", StreamDirection::Record, "tone", 5, 44100, 1)));
    let p = b.reader_i32();
    assert_eq!((p.field_size(), p.call()), (4, &open_call("client", StreamDirection::Record, "tone", 7, 44100, 1)));
}

#[test]
fn every_writer_factory_sets_format_and_width() {
    let mut b = builder();
    let p = b.writer_u8();
    assert_eq!((p.field_size(), p.call()), (1, &open_call("client", StreamDirection::Playback, "tone", 0, 44100, 1)));
    let p = b.writer_alaw();
    assert_eq!((p.field_size(), p.call()), (1, &open_call("client", StreamDirection::Playback, "tone", 1, 44100, 1)));
    let p = b.writer_ulaw();
    assert_eq!((p.field_size(), p.call()), (1, &open_call("client", StreamDirection::Playback, "tone", 2, 44100, 1)));
    let p = b.writer_i16();
    assert_eq!((p.field_size(), p.call()), (2, &open_call("client", StreamDirection::Playback, "tone", 3, 44100, 1)));
    let p = b.writer_f32();
    assert_eq!((p.field_size(), p.call()), (4, &open_call("client", StreamDirection::Playback, "tone", 5, 44100, 1)));
    let p = b.writer_i32();
    assert_eq!((p.field_size(), p.call()), (4, &open_call("client", StreamDirection::Playback, "tone", 7, 44100, 1)));
}

#[test]
fn a_factory_leaves_its_format_in_the_builder() {
    let mut b = builder().rate(22050);
    let _ = b.reader_i32();
    // `rate` and `channels` keep the format that the last factory set.
    let mut b = b.channels(2);
    let _ = b.writer_f32();
    let mut b = b.rate(11025);
    assert_eq!(*b.reader_f32().call(), open_call("client", StreamDirection::Record, "tone", 5, 11025, 2));
}

#[test]
fn names_pass_unchanged() {
    let mut b = Builder::new(String::from(""), String::from("Größe ♪"));
    assert_eq!(*b.writer_u8().call(), open_call("", StreamDirection::Playback, "Größe ♪", 0, 44100, 1));
}

#[test]
fn null_terminated_appends_one_zero() {
    assert_eq!(null_terminated("tone"), Some(vec![b't', b'o', b'n', b'e', 0]));
    assert_eq!(null_terminated(""), Some(vec![0]));
    assert_eq!(null_terminated("ß"), Some(vec![0xc3, 0x9f, 0]));
}

#[test]
fn null_terminated_refuses_a_zero_byte() {
    assert_eq!(null_terminated("to\0ne"), None);
    assert_eq!(null_terminated("\0"), None);
    assert_eq!(null_terminated("tone\0"), None);
}
