//! The bytes of a WAV file of 16-bit PCM samples.
use vstd::prelude::*;

verus! {

/// `x` as two bytes, least significant first.
pub open spec fn le16(x: int) -> Seq<u8> {
    seq![(x % 256) as u8, ((x / 256) % 256) as u8]
}

/// `x` as four bytes, least significant first.
pub open spec fn le32(x: int) -> Seq<u8> {
    le16(x % 65536) + le16(x / 65536)
}

/// The samples as little-endian two's-complement 16-bit words.
pub open spec fn pcm_bytes(s: Seq<i16>) -> Seq<u8> {
    Seq::new(
        2 * s.len(),
        |i: int|
            {
                let v = s[i / 2] as int;
                let u = if v < 0 { v + 65536 } else { v };
                if i % 2 == 0 { (u % 256) as u8 } else { (u / 256) as u8 }
            },
    )
}

/// A RIFF/WAVE file of 16-bit PCM samples: the `RIFF` chunk of type `WAVE`
/// holding a 16-byte `fmt ` chunk and a `data` chunk with the samples.
pub open spec fn wav_file(samples: Seq<i16>, sample_rate: u32, channels: u16) -> Seq<u8> {
    let n: int = 2 * samples.len() as int;
    seq![0x52u8, 0x49, 0x46, 0x46] + le32(36 + n) + seq![0x57u8, 0x41, 0x56, 0x45]
        + seq![0x66u8, 0x6d, 0x74, 0x20] + le32(16)
        + le16(1) + le16(channels as int) + le32(sample_rate as int)
        + le32(2 * channels * sample_rate) + le16(2 * channels) + le16(16)
        + seq![0x64u8, 0x61, 0x74, 0x61] + le32(n) + pcm_bytes(samples)
}

/// The sizes in a WAV file of the samples fit its header fields.
pub open spec fn wav_fits(samples: Seq<i16>, sample_rate: u32, channels: u16) -> bool {
    &&& 2 * channels <= u16::MAX
    &&& 2 * channels * sample_rate <= u32::MAX
    &&& 2 * samples.len() + 36 <= u32::MAX
}

/// Whether the samples fit a WAV file (see `wav_fits`).
pub fn fits_wav(data: &Vec<i16>, sample_rate: u32, channels: u16) -> (r: bool)
    ensures
        r == wav_fits(data@, sample_rate, channels),
{
    let ch: u64 = channels as u64;
    let sr: u64 = sample_rate as u64;
    let n: u128 = data.len() as u128;
    assert(2 * ch * sr <= 2 * 0xffff * 0xffff_ffff) by (nonlinear_arith)
        requires
            ch <= 0xffff,
            sr <= 0xffff_ffff,
    ;
    2 * ch <= u16::MAX as u64 && 2 * ch * sr <= u32::MAX as u64 && 2 * n + 36 <= u32::MAX as u128
}

/// The WAV file of `samples`, 16-bit PCM.
///
/// Builds `wav::Header::new(wav::WAV_FORMAT_PCM, channels, sample_rate, 16)`
/// and calls `wav::write` with `wav::BitDepth::Sixteen(samples)` into an
/// in-memory `std::io::Cursor`. By the source of `wav` 1.0.1 and `riff`
/// 1.0.1 the bytes are those of `wav_file`; the header arithmetic and the
/// chunk sizes stay within their integer types under `wav_fits`, and writing
/// into memory does not fail.
#[verifier::external_body]
#[allow(deprecated)]
fn write_wav_pcm16(samples: &Vec<i16>, sample_rate: u32, channels: u16) -> (r: Vec<u8>)
    requires
        wav_fits(samples@, sample_rate, channels),
    ensures
        r@ == wav_file(samples@, sample_rate, channels),
{
    let header = wav::Header::new(wav::WAV_FORMAT_PCM, channels, sample_rate, 16);
    let mut out = std::io::Cursor::new(Vec::new());
    wav::write(header, &wav::BitDepth::Sixteen(samples.clone()), &mut out).unwrap();
    out.into_inner()
}

/// The WAV file that saving `data` writes: 16-bit PCM at `sample_rate` with
/// `channels` interleaved channels.
pub fn encode_wav(data: &Vec<i16>, sample_rate: u32, channels: u16) -> (r: Vec<u8>)
    requires
        wav_fits(data@, sample_rate, channels),
    ensures
        r@ == wav_file(data@, sample_rate, channels),
{
    write_wav_pcm16(data, sample_rate, channels)
}

} // verus!
