use vstd::prelude::*;
use base64::Engine;
use crate::StreamFormat;
use crate::errors::Error;
use crate::quantize::{quantized, quantize_all};
use crate::wav::{encodable, wav_bytes, encode_wav, lemma_wav_bytes_len};

verus! {

/// The text the standard base64 alphabet (with padding) assigns to a byte
/// stream. The exact digits are a function of the bytes alone; callers
/// reason about them only through this name.
pub uninterp spec fn base64_of(bytes: Seq<u8>) -> Seq<char>;

/// Relies on base64's `Engine::encode` with the `STANDARD` engine: the
/// padded standard alphabet, whose output is four digits for every three
/// input bytes, rounded up, and depends on the input bytes alone. The
/// engine aborts when that output length overflows `usize`, so inputs
/// anywhere near that size are excluded.
#[verifier::external_body]
fn base64_encode(bytes: &Vec<u8>) -> (r: String)
    requires
        4 * (bytes@.len() / 3 + 1) <= usize::MAX,
    ensures
        r@ == base64_of(bytes@),
        r@.len() == 4 * ((bytes@.len() + 2) / 3),
{
    base64::engine::general_purpose::STANDARD.encode(bytes)
}

/// A finished capture, packaged as the base64 text of a WAV byte stream.
pub struct EncodedAudio {
    text: String,
}

impl View for EncodedAudio {
    type V = Seq<char>;

    closed spec fn view(&self) -> Seq<char> {
        self.text@
    }
}

impl EncodedAudio {
    /// The transport text itself.
    pub fn as_str(&self) -> (r: &str)
        ensures
            r@ == self@,
    {
        self.text.as_str()
    }

    /// Hand the transport text back by value.
    pub fn into_text(self) -> (r: String)
        ensures
            r@ == self@,
    {
        self.text
    }
}

/// The transport text produced for a buffer of sample bit patterns in a
/// given format: quantize every sample, build the WAV container, encode
/// it as base64.
pub open spec fn encoded_audio_spec(samples: Seq<u32>, fmt: StreamFormat) -> Seq<char> {
    base64_of(wav_bytes(quantized(samples), fmt))
}

/// Encode a finished capture: quantize the sample bit patterns in order,
/// package them into a WAV container carrying exactly the session's
/// format, and wrap the bytes in base64 transport text. Succeeds exactly
/// when the format and buffer fit the container.
pub fn encode_capture(samples: &Vec<u32>, fmt: &StreamFormat) -> (r: Result<
    EncodedAudio,
    Error,
>)
    ensures
        r is Ok <==> encodable(*fmt, samples@.len()),
        r is Ok ==> r->Ok_0@ == encoded_audio_spec(samples@, *fmt),
        r is Err ==> r->Err_0 is EncodeFailure,
{
    let pcm: Vec<i16> = quantize_all(samples);
    match encode_wav(&pcm, fmt) {
        Ok(bytes) => {
            proof {
                lemma_wav_bytes_len(pcm@, *fmt);
            }
            Ok(EncodedAudio { text: base64_encode(&bytes) })
        },
        Err(e) => Err(e),
    }
}

/// Law: the encoder is deterministic. The transport text is a function of
/// the sample bit patterns and the format alone, so encoding the same
/// buffer twice produces byte-identical output.
pub proof fn lemma_encoder_deterministic(s1: Seq<u32>, s2: Seq<u32>, fmt: StreamFormat)
    requires
        s1 == s2,
    ensures
        encoded_audio_spec(s1, fmt) == encoded_audio_spec(s2, fmt),
{
}

} // verus!
