use loopback_capture::{encode_wav, quantize_sample, encode_capture, StreamFormat, Error};
use base64::Engine;
use std::io::Cursor;

fn fmt(sample_rate: u32, channels: u16) -> StreamFormat {
    StreamFormat { sample_rate, channels }
}

fn reference_quantize(x: f32) -> i16 {
    let clamped = x.clamp(-1.0, 1.0);
    (clamped * 32767.0) as i16
}

#[test]
fn quantize_reference_points() {
    assert_eq!(quantize_sample(1.0f32.to_bits()), 32767);
    assert_eq!(quantize_sample((-1.0f32).to_bits()), -32767);
    assert_eq!(quantize_sample(0.0f32.to_bits()), 0);
    assert_eq!(quantize_sample((-0.0f32).to_bits()), 0);
}

#[test]
fn quantize_clamps_out_of_range() {
    assert_eq!(
        quantize_sample(2.0f32.to_bits()),
        quantize_sample(1.0f32.to_bits())
    );
    assert_eq!(
        quantize_sample((-2.0f32).to_bits()),
        quantize_sample((-1.0f32).to_bits())
    );
    assert_eq!(quantize_sample(f32::INFINITY.to_bits()), 32767);
    assert_eq!(quantize_sample(f32::NEG_INFINITY.to_bits()), -32767);
    assert_eq!(quantize_sample(f32::NAN.to_bits()), 0);
}

#[test]
fn quantize_matches_float_pipeline() {
    let mut values: Vec<f32> = vec![
        0.0, -0.0, 1.0, -1.0, 0.5, -0.5, 0.25, -0.25, 0.75, -0.75, 0.1, -0.1, 2.0, -2.0, 100.0,
        -100.0, 0.999_999_9, -0.999_999_9, 1e-40, -1e-40, 1e-30, 3.0517578e-5, 6.1035156e-5,
        0.333_333_34, 0.123_456_79, 0.000_030_6,
    ];
    // values whose scaled product lands close to an integer boundary
    for k in 0..2000u32 {
        let v = (k as f32 + 0.999_97) / 32767.0;
        values.push(v);
        values.push(-v);
        let w = (k as f32 + 0.000_03) / 32767.0;
        values.push(w);
        values.push(-w);
    }
    // a deterministic scatter of bit patterns across the whole f32 range
    let mut bits: u32 = 0x9e3779b9;
    for _ in 0..20000 {
        bits = bits.wrapping_mul(0x0019_660d).wrapping_add(0x3c6e_f35f);
        values.push(f32::from_bits(bits));
    }
    for x in values {
        let expected = reference_quantize(x);
        let got = quantize_sample(x.to_bits());
        assert_eq!(got, expected, "bits {:#010x} value {}", x.to_bits(), x);
    }
}

#[test]
fn quantization_is_deterministic_bytewise() {
    let samples: Vec<u32> = vec![0.31f32.to_bits()];
    let a = encode_capture(&samples, &fmt(44100, 2)).unwrap().into_text();
    let b = encode_capture(&samples, &fmt(44100, 2)).unwrap().into_text();
    assert_eq!(a, b);
}

fn hound_reference_bytes(samples: &[i16], sample_rate: u32, channels: u16) -> Vec<u8> {
    let spec = hound::WavSpec {
        channels,
        sample_rate,
        bits_per_sample: 16,
        sample_format: hound::SampleFormat::Int,
    };
    let mut buffer = Vec::new();
    {
        let cursor = Cursor::new(&mut buffer);
        let mut writer = hound::WavWriter::new(cursor, spec).unwrap();
        for s in samples {
            writer.write_sample(*s).unwrap();
        }
        writer.finalize().unwrap();
    }
    buffer
}

#[test]
fn wav_layout_matches_reference_writer() {
    let samples: Vec<i16> = vec![0, 1, -1, 32767, -32767, 1234, -4321];
    let ours = encode_wav(&samples, &fmt(48000, 1)).unwrap();
    let theirs = hound_reference_bytes(&samples, 48000, 1);
    assert_eq!(ours, theirs);

    let stereo: Vec<i16> = vec![10, -10, 20, -20];
    let ours2 = encode_wav(&stereo, &fmt(44100, 2)).unwrap();
    let theirs2 = hound_reference_bytes(&stereo, 44100, 2);
    assert_eq!(ours2, theirs2);
}

#[test]
fn wav_round_trip_through_reference_reader() {
    let samples: Vec<i16> = vec![5, -6, 7, -8, 9, -10];
    let bytes = encode_wav(&samples, &fmt(22050, 2)).unwrap();
    let reader = hound::WavReader::new(Cursor::new(bytes)).unwrap();
    let spec = reader.spec();
    assert_eq!(spec.sample_rate, 22050);
    assert_eq!(spec.channels, 2);
    assert_eq!(spec.bits_per_sample, 16);
    assert_eq!(spec.sample_format, hound::SampleFormat::Int);
    let read_back: Vec<i16> = reader.into_samples::<i16>().map(|s| s.unwrap()).collect();
    assert_eq!(read_back, samples);
}

#[test]
fn zero_channels_is_encode_failure() {
    let samples: Vec<i16> = vec![1, 2, 3];
    match encode_wav(&samples, &fmt(48000, 0)) {
        Err(Error::EncodeFailure(_)) => {}
        other => panic!("expected an encode failure, got {:?}", other.is_ok()),
    }
    let bits: Vec<u32> = vec![0.5f32.to_bits()];
    match encode_capture(&bits, &fmt(48000, 0)) {
        Err(Error::EncodeFailure(_)) => {}
        _ => panic!("expected an encode failure"),
    }
}

#[test]
fn transport_text_is_base64_of_container() {
    let bits: Vec<u32> = vec![0.5f32.to_bits(), (-0.5f32).to_bits()];
    let format = fmt(48000, 1);
    let audio = encode_capture(&bits, &format).unwrap();
    assert_eq!(audio.as_str().len(), audio.as_str().chars().count());
    let encoded = audio.into_text();
    // a RIFF container always begins with this base64 prefix
    assert!(encoded.starts_with("UklGR"));
    let decoded = base64::engine::general_purpose::STANDARD
        .decode(encoded.as_bytes())
        .unwrap();
    let pcm: Vec<i16> = bits.iter().map(|b| quantize_sample(*b)).collect();
    let expected = encode_wav(&pcm, &format).unwrap();
    assert_eq!(decoded, expected);
}
