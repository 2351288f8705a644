use vstd::prelude::*;
use crate::StreamFormat;
use crate::errors::Error;

verus! {

// The container the encoder produces: a RIFF WAVE file with a classic
// 44-byte PCM header (16 bits per sample, signed integer samples) followed
// by the samples in original interleaved order, little-endian.

/// The two little-endian bytes of a 16-bit value.
pub open spec fn u16le(v: int) -> Seq<u8> {
    seq![(v % 256) as u8, ((v / 256) % 256) as u8]
}

/// The four little-endian bytes of a 32-bit value.
pub open spec fn u32le(v: int) -> Seq<u8> {
    seq![
        (v % 256) as u8,
        ((v / 256) % 256) as u8,
        ((v / 65536) % 256) as u8,
        ((v / 16777216) % 256) as u8,
    ]
}

/// The unsigned 16-bit pattern that stores a signed sample (two's complement).
pub open spec fn i16_bits(s: i16) -> int {
    if s < 0 {
        s + 65536
    } else {
        s as int
    }
}

/// The data region: each sample as two little-endian bytes, in order.
pub open spec fn data_bytes(s: Seq<i16>) -> Seq<u8>
    decreases s.len(),
{
    if s.len() == 0 {
        Seq::empty()
    } else {
        u16le(i16_bits(s[0])) + data_bytes(s.drop_first())
    }
}

/// Whether a buffer of `n` samples in this format fits the container:
/// at least one channel, a block alignment that fits its 16-bit field,
/// a byte rate that fits its 32-bit field, and a byte stream small enough
/// for both the header's 32-bit size fields and the four-thirds expansion
/// of the transport encoding.
pub open spec fn encodable(fmt: StreamFormat, n: nat) -> bool {
    &&& 1 <= fmt.channels <= 32767
    &&& fmt.sample_rate * fmt.channels * 2 <= u32::MAX
    &&& 44 + 2 * n <= 2952790016
}

/// The 44-byte header for `n` 16-bit PCM samples in the given format.
pub open spec fn wav_header(fmt: StreamFormat, n: nat) -> Seq<u8> {
    seq![0x52u8, 0x49u8, 0x46u8, 0x46u8]  // "RIFF"
        + u32le(36 + 2 * n as int)
        + seq![0x57u8, 0x41u8, 0x56u8, 0x45u8]  // "WAVE"
        + seq![0x66u8, 0x6du8, 0x74u8, 0x20u8]  // "fmt "
        + u32le(16)  // fmt chunk length
        + u16le(1)  // PCM, integer samples
        + u16le(fmt.channels as int)
        + u32le(fmt.sample_rate as int)
        + u32le(fmt.sample_rate * fmt.channels * 2)  // bytes per second
        + u16le(fmt.channels * 2)  // block alignment
        + u16le(16)  // bits per sample
        + seq![0x64u8, 0x61u8, 0x74u8, 0x61u8]  // "data"
        + u32le(2 * n as int)
}

/// The complete container byte stream.
pub open spec fn wav_bytes(samples: Seq<i16>, fmt: StreamFormat) -> Seq<u8> {
    wav_header(fmt, samples.len()) + data_bytes(samples)
}

proof fn lemma_data_bytes_push(s: Seq<i16>, x: i16)
    ensures
        data_bytes(s.push(x)) == data_bytes(s) + u16le(i16_bits(x)),
    decreases s.len(),
{
    assert(s.push(x)[0] == if s.len() == 0 { x } else { s[0] });
    if s.len() == 0 {
        assert(s.push(x).drop_first() =~= Seq::<i16>::empty());
        assert(data_bytes(s.push(x)) == u16le(i16_bits(x)) + data_bytes(Seq::<i16>::empty()));
        assert(data_bytes(s.push(x)) =~= data_bytes(s) + u16le(i16_bits(x)));
    } else {
        assert(s.push(x).drop_first() =~= s.drop_first().push(x));
        lemma_data_bytes_push(s.drop_first(), x);
        assert(data_bytes(s.push(x)) =~= data_bytes(s) + u16le(i16_bits(x)));
    }
}

/// The whole container is 44 header bytes plus two bytes per sample.
pub proof fn lemma_wav_bytes_len(samples: Seq<i16>, fmt: StreamFormat)
    ensures
        wav_bytes(samples, fmt).len() == 44 + 2 * samples.len(),
{
    lemma_data_bytes_len(samples);
}

/// The data region holds exactly two bytes per sample.
pub proof fn lemma_data_bytes_len(s: Seq<i16>)
    ensures
        data_bytes(s).len() == 2 * s.len(),
    decreases s.len(),
{
    if s.len() > 0 {
        lemma_data_bytes_len(s.drop_first());
    }
}

fn push_u16le(out: &mut Vec<u8>, v: u16)
    ensures
        final(out)@ == old(out)@ + u16le(v as int),
{
    out.push((v % 256) as u8);
    out.push((v / 256) as u8);
    proof {
        assert(final(out)@ =~= old(out)@ + u16le(v as int));
    }
}

fn push_u32le(out: &mut Vec<u8>, v: u32)
    ensures
        final(out)@ == old(out)@ + u32le(v as int),
{
    out.push((v % 256) as u8);
    out.push(((v / 256) % 256) as u8);
    out.push(((v / 65536) % 256) as u8);
    out.push(((v / 16777216) % 256) as u8);
    proof {
        assert(final(out)@ =~= old(out)@ + u32le(v as int));
    }
}

/// Build the container for a finished buffer of 16-bit samples.
/// Succeeds exactly on encodable inputs; a zero channel count, an
/// oversized block alignment, or byte counts past the 32-bit size fields
/// are reported as an encode failure, and nothing else is.
pub fn encode_wav(samples: &Vec<i16>, fmt: &StreamFormat) -> (r: Result<Vec<u8>, Error>)
    ensures
        r is Ok <==> encodable(*fmt, samples@.len()),
        r is Ok ==> r->Ok_0@ == wav_bytes(samples@, *fmt),
        r is Err ==> r->Err_0 is EncodeFailure,
{
    if fmt.channels == 0 || fmt.channels > 32767 {
        return Err(Error::EncodeFailure("invalid channel count for WAV container".to_owned()));
    }
    proof {
        assert((fmt.sample_rate as int) * (fmt.channels as int) * 2 <= 0xffffffffint * 0x7fff * 2)
            by (nonlinear_arith)
            requires fmt.sample_rate <= 0xffffffff, fmt.channels <= 0x7fff;
    }
    let byte_rate_wide: u64 = (fmt.sample_rate as u64) * (fmt.channels as u64) * 2;
    if byte_rate_wide > 0xffffffff {
        return Err(Error::EncodeFailure("byte rate overflows the WAV header field".to_owned()));
    }
    if samples.len() > 1476394986 {
        // the container and its transport expansion must stay within the
        // 32-bit header size fields and the smallest address space
        return Err(Error::EncodeFailure("too many samples for a WAV container".to_owned()));
    }
    let n: u32 = samples.len() as u32;
    let data_len: u32 = 2 * n;
    let riff_len: u32 = 36 + data_len;
    let byte_rate: u32 = byte_rate_wide as u32;
    let block_align: u16 = fmt.channels * 2;

    let mut out: Vec<u8> = Vec::new();
    out.push(0x52u8);
    out.push(0x49u8);
    out.push(0x46u8);
    out.push(0x46u8);
    push_u32le(&mut out, riff_len);
    out.push(0x57u8);
    out.push(0x41u8);
    out.push(0x56u8);
    out.push(0x45u8);
    out.push(0x66u8);
    out.push(0x6du8);
    out.push(0x74u8);
    out.push(0x20u8);
    push_u32le(&mut out, 16);
    push_u16le(&mut out, 1);
    push_u16le(&mut out, fmt.channels);
    push_u32le(&mut out, fmt.sample_rate);
    push_u32le(&mut out, byte_rate);
    push_u16le(&mut out, block_align);
    push_u16le(&mut out, 16);
    out.push(0x64u8);
    out.push(0x61u8);
    out.push(0x74u8);
    out.push(0x61u8);
    push_u32le(&mut out, data_len);
    proof {
        assert(out@ =~= wav_header(*fmt, samples@.len()));
    }

    let ghost header = out@;
    let mut i: usize = 0;
    while i < samples.len()
        invariant
            i <= samples@.len(),
            out@ == header + data_bytes(samples@.take(i as int)),
            header == wav_header(*fmt, samples@.len()),
        decreases samples@.len() - i,
    {
        let s: i16 = samples[i];
        let u: u16 = if s >= 0 {
            s as u16
        } else {
            ((s as i32) + 65536) as u16
        };
        push_u16le(&mut out, u);
        proof {
            assert(samples@.take(i + 1int) =~= samples@.take(i as int).push(samples@[i as int]));
            lemma_data_bytes_push(samples@.take(i as int), samples@[i as int]);
            assert(u as int == i16_bits(samples@[i as int]));
        }
        i = i + 1;
    }
    proof {
        assert(samples@.take(samples@.len() as int) =~= samples@);
    }
    Ok(out)
}

// ---- Reading the container back -------------------------------------------

/// The 16-bit little-endian value stored at offset `i`.
pub open spec fn le16_at(b: Seq<u8>, i: int) -> int {
    b[i] + 256 * b[i + 1]
}

/// The 32-bit little-endian value stored at offset `i`.
pub open spec fn le32_at(b: Seq<u8>, i: int) -> int {
    b[i] + 256 * b[i + 1] + 65536 * b[i + 2] + 16777216 * b[i + 3]
}

/// The signed sample stored as a 16-bit pattern at offset `i`.
pub open spec fn i16_at(b: Seq<u8>, i: int) -> int {
    if le16_at(b, i) >= 32768 {
        le16_at(b, i) - 65536
    } else {
        le16_at(b, i)
    }
}

/// The samples read from a data region (two bytes each, in order).
pub open spec fn parse_samples(b: Seq<u8>) -> Seq<i16>
    decreases b.len(),
{
    if b.len() < 2 {
        Seq::empty()
    } else {
        seq![i16_at(b, 0) as i16] + parse_samples(b.skip(2))
    }
}

/// Whether a byte stream carries the exact header layout `wav_header`
/// writes, with sizes consistent with the stream's own length.
pub open spec fn wav_header_ok(b: Seq<u8>) -> bool {
    &&& b.len() >= 44
    &&& (b.len() - 44) % 2 == 0
    &&& b.subrange(0, 4) == seq![0x52u8, 0x49u8, 0x46u8, 0x46u8]
    &&& le32_at(b, 4) == b.len() - 8
    &&& b.subrange(8, 12) == seq![0x57u8, 0x41u8, 0x56u8, 0x45u8]
    &&& b.subrange(12, 16) == seq![0x66u8, 0x6du8, 0x74u8, 0x20u8]
    &&& le32_at(b, 16) == 16
    &&& le16_at(b, 20) == 1
    &&& 1 <= le16_at(b, 22) <= 32767
    &&& le32_at(b, 28) == le32_at(b, 24) * le16_at(b, 22) * 2
    &&& le16_at(b, 32) == le16_at(b, 22) * 2
    &&& le16_at(b, 34) == 16
    &&& b.subrange(36, 40) == seq![0x64u8, 0x61u8, 0x74u8, 0x61u8]
    &&& le32_at(b, 40) == b.len() - 44
}

/// The format and samples read back from a container byte stream, or
/// nothing when the stream is not a consistent 16-bit PCM WAV file.
pub open spec fn parse_wav(b: Seq<u8>) -> Option<(StreamFormat, Seq<i16>)> {
    if wav_header_ok(b) {
        Some(
            (
                StreamFormat {
                    sample_rate: le32_at(b, 24) as u32,
                    channels: le16_at(b, 22) as u16,
                },
                parse_samples(b.skip(44)),
            ),
        )
    } else {
        None
    }
}

proof fn lemma_le16_round_trip(v: u16)
    ensures
        le16_at(u16le(v as int), 0) == v,
{
    assert(v % 256 + 256 * ((v / 256) % 256) == v) by (bit_vector);
}

proof fn lemma_le32_round_trip(v: u32)
    ensures
        le32_at(u32le(v as int), 0) == v,
{
    assert(v % 256 + 256 * ((v / 256) % 256) + 65536 * ((v / 65536) % 256) + 16777216 * ((v
        / 16777216) % 256) == v) by (bit_vector);
}

proof fn lemma_parse_data_round_trip(s: Seq<i16>)
    ensures
        parse_samples(data_bytes(s)) == s,
    decreases s.len(),
{
    lemma_data_bytes_len(s);
    if s.len() == 0 {
        assert(parse_samples(data_bytes(s)) =~= s);
    } else {
        let b = data_bytes(s);
        let w = i16_bits(s[0]);
        assert(0 <= w < 65536);
        assert(b[0] == (w % 256) as u8 && b[1] == ((w / 256) % 256) as u8);
        assert(le16_at(b, 0) == w) by {
            assert(w % 256 + 256 * ((w / 256) % 256) == w) by (nonlinear_arith)
                requires 0 <= w < 65536;
        }
        assert(i16_at(b, 0) == s[0]);
        assert(b.skip(2) =~= data_bytes(s.drop_first()));
        lemma_parse_data_round_trip(s.drop_first());
        assert(parse_samples(b) =~= s);
    }
}

/// Law: round-trip header fidelity. Encoding any sample buffer in any
/// encodable format and reading the container back yields exactly the
/// original sample count, channel count, sample rate, and samples.
#[verifier::rlimit(100)]
#[verifier::spinoff_prover]
pub proof fn lemma_wav_round_trip(samples: Seq<i16>, fmt: StreamFormat)
    requires
        encodable(fmt, samples.len()),
    ensures
        parse_wav(wav_bytes(samples, fmt)) == Some((fmt, samples)),
        parse_wav(wav_bytes(samples, fmt))->Some_0.1.len() == samples.len(),
{
    let b = wav_bytes(samples, fmt);
    let n = samples.len();
    lemma_data_bytes_len(samples);
    assert(b.len() == 44 + 2 * n);
    assert(b.subrange(0, 4) =~= seq![0x52u8, 0x49u8, 0x46u8, 0x46u8]);
    assert(b.subrange(8, 12) =~= seq![0x57u8, 0x41u8, 0x56u8, 0x45u8]);
    assert(b.subrange(12, 16) =~= seq![0x66u8, 0x6du8, 0x74u8, 0x20u8]);
    assert(b.subrange(36, 40) =~= seq![0x64u8, 0x61u8, 0x74u8, 0x61u8]);
    assert(b.subrange(4, 8) =~= u32le(36 + 2 * n as int));
    assert(b.subrange(16, 20) =~= u32le(16));
    assert(b.subrange(20, 22) =~= u16le(1));
    assert(b.subrange(22, 24) =~= u16le(fmt.channels as int));
    assert(b.subrange(24, 28) =~= u32le(fmt.sample_rate as int));
    assert(b.subrange(28, 32) =~= u32le(fmt.sample_rate * fmt.channels * 2));
    assert(b.subrange(32, 34) =~= u16le(fmt.channels * 2));
    assert(b.subrange(34, 36) =~= u16le(16));
    lemma_le32_round_trip((36 + 2 * n) as u32);
    lemma_le32_round_trip(16);
    lemma_le16_round_trip(1);
    lemma_le16_round_trip(fmt.channels);
    lemma_le32_round_trip(fmt.sample_rate);
    lemma_le32_round_trip((fmt.sample_rate * fmt.channels * 2) as u32);
    lemma_le16_round_trip((fmt.channels * 2) as u16);
    lemma_le16_round_trip(16);
    lemma_le32_round_trip((2 * n) as u32);
    assert(b.skip(44) =~= data_bytes(samples));
    lemma_parse_data_round_trip(samples);
    assert(wav_header_ok(b));
}

} // verus!
