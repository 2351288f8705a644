use loopback_capture::{CaptureSession, Error};
use base64::Engine;
use std::io::Cursor;

#[test]
fn stop_with_no_samples_is_no_data() {
    let mut session = CaptureSession::new();
    session.reset();
    match session.finish() {
        Err(e) => {
            assert!(e.is_no_data());
            assert_eq!(e.message(), "No audio samples captured");
        }
        Ok(_) => panic!("an empty buffer must not encode"),
    }
}

#[test]
fn cancellation_is_exclusive() {
    let mut session = CaptureSession::new();
    session.begin_capture();
    // stop and the watchdog race for the slot: the first take wins,
    // the second finds it empty, so exactly one signal is delivered
    let first = session.take_cancel();
    let second = session.take_cancel();
    assert!(first);
    assert!(!second);
}

#[test]
fn end_to_end_one_second_mono() {
    let mut session = CaptureSession::new();
    session.reset();
    session.record_format(48000, 1);
    session.begin_capture();
    // one second of non-silent mono frames at 48 kHz, drained over 100 polls
    let frame: Vec<u32> = std::iter::repeat(0.25f32.to_bits()).take(480).collect();
    for _ in 0..100 {
        session.on_frames(&frame, false);
    }
    assert!(session.take_cancel());
    session.on_cancelled();
    let encoded = session.finish().unwrap().into_text();

    let bytes = base64::engine::general_purpose::STANDARD
        .decode(encoded.as_bytes())
        .unwrap();
    let reader = hound::WavReader::new(Cursor::new(bytes)).unwrap();
    let spec = reader.spec();
    assert_eq!(spec.sample_rate, 48000);
    assert_eq!(spec.channels, 1);
    let n = reader.into_samples::<i16>().count();
    assert_eq!(n, 48000);
}

#[test]
fn silent_frames_yield_no_data() {
    let mut session = CaptureSession::new();
    session.reset();
    session.record_format(48000, 2);
    session.begin_capture();
    let frame: Vec<u32> = std::iter::repeat(0.9f32.to_bits()).take(960).collect();
    for _ in 0..50 {
        // the platform flags every buffer as silent: nothing is recorded
        session.on_frames(&frame, true);
    }
    assert!(session.take_cancel());
    session.on_cancelled();
    assert_eq!(session.samples.len(), 0);
    match session.finish() {
        Err(Error::NoData) => {}
        _ => panic!("a capture of pure silence must report no data"),
    }
}

#[test]
fn watchdog_stops_capture() {
    let mut session = CaptureSession::new();
    session.reset();
    session.record_format(44100, 2);
    session.begin_capture();
    assert!(session.running);
    // no stop call ever arrives; the watchdog fires and takes the slot
    let watchdog_won = session.take_cancel();
    assert!(watchdog_won);
    // the loop observes the signal at its next poll boundary and halts
    session.on_cancelled();
    assert!(!session.running);
    assert!(session.stream_halted);
    // a later stop call finds the slot empty and does not signal again
    assert!(!session.take_cancel());
}

#[test]
fn a_new_start_discards_the_previous_buffer() {
    let mut session = CaptureSession::new();
    session.record_format(48000, 1);
    session.begin_capture();
    let frame: Vec<u32> = vec![0.5f32.to_bits(); 100];
    session.on_frames(&frame, false);
    assert_eq!(session.samples.len(), 100);
    assert!(session.take_cancel());
    session.on_cancelled();
    // the next start resets the buffer before anything can fail
    session.reset();
    assert_eq!(session.samples.len(), 0);
}

#[test]
fn silent_and_live_frames_interleave_in_order() {
    let mut session = CaptureSession::new();
    session.record_format(8000, 1);
    session.begin_capture();
    session.on_frames(&vec![0.1f32.to_bits(), 0.2f32.to_bits()], false);
    session.on_frames(&vec![0.9f32.to_bits()], true);
    session.on_frames(&vec![0.3f32.to_bits()], false);
    assert_eq!(
        session.samples,
        vec![0.1f32.to_bits(), 0.2f32.to_bits(), 0.3f32.to_bits()]
    );
}

#[test]
fn error_messages_are_displayable() {
    let e = Error::DeviceAcquisitionFailure("Failed to create device enumerator: x".to_string());
    assert_eq!(e.message(), "Failed to create device enumerator: x");
    assert!(!e.is_no_data());
    let e = Error::StreamInitFailure("Failed to initialize audio client: y".to_string());
    assert_eq!(e.message(), "Failed to initialize audio client: y");
    let e = Error::StreamStartFailure("Failed to start stream: z".to_string());
    assert_eq!(e.message(), "Failed to start stream: z");
    let e = Error::EncodeFailure("Failed to create WAV writer: w".to_string());
    assert_eq!(e.message(), "Failed to create WAV writer: w");
    assert_eq!(Error::NoData.message(), "No audio samples captured");
}
