//! System-audio loopback capture core: a session state machine that
//! accumulates PCM samples delivered by a platform capture endpoint,
//! quantizes them to 16-bit integer PCM, packages them into a WAV
//! container, and hands the result back as a base64 text encoding.

use vstd::prelude::*;

mod errors;
mod quantize;
mod wav;
mod encoder;
mod session;

pub use errors::Error;
pub use encoder::{EncodedAudio, encode_capture, encoded_audio_spec, base64_of, lemma_encoder_deterministic};
pub use session::{CaptureSession, cancel_take_wins_spec, cancel_taken_spec, cancelled_spec, buffer_after_poll, buffer_after_polls, recorded_of_polls, lemma_polls_record_in_order, lemma_all_silent_records_nothing, lemma_cancellation_exclusive, lemma_watchdog_stops_capture};
pub use wav::{encode_wav, wav_bytes, wav_header, data_bytes, parse_wav, parse_samples, wav_header_ok, encodable, u16le, u32le, i16_bits, le16_at, le32_at, i16_at, lemma_wav_round_trip, lemma_data_bytes_len, lemma_wav_bytes_len};
pub use quantize::{quantize_sample, quantize_all, quantize_spec, quantize_mag, quantized, round_half_even, f32_sign, f32_exp, f32_frac, f32_is_nan, lemma_quantize_deterministic, lemma_quantize_reference_points, lemma_quantize_clamps};

verus! {

/// The stream format negotiated with the platform mixer at session start:
/// the container must carry exactly these values at encode time.
#[derive(Clone, Copy, Debug, PartialEq, Eq, Structural)]
pub struct StreamFormat {
    pub sample_rate: u32,
    pub channels: u16,
}

} // verus!
