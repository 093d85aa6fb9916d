//! The spectrogram image of a stretch of samples.
use vstd::prelude::*;

verus! {

/// The number of frequency bins of the spectrogram.
pub const SPEC_LEN: usize = 2048;

/// The samples the spectrogram is computed from: a stretch of at most
/// `SPEC_LEN` samples is repeated until it is `16 * SPEC_LEN` samples long
/// (an empty stretch stays empty); a longer one is taken as it is.
pub open spec fn spectrum_samples(w: Seq<i16>) -> Seq<i16> {
    if w.len() <= 2048 {
        if w.len() == 0 {
            Seq::empty()
        } else {
            Seq::new(32768, |i: int| w[i % (w.len() as int)])
        }
    } else {
        w
    }
}

/// The samples the spectrogram of `waveform` is computed from (see
/// `spectrum_samples`).
pub fn spectrum_input(waveform: Vec<i16>) -> (r: Vec<i16>)
    ensures
        r@ == spectrum_samples(waveform@),
{
    if waveform.len() > SPEC_LEN || waveform.len() == 0 {
        return waveform;
    }
    let n = waveform.len();
    let mut out: Vec<i16> = Vec::new();
    let mut i: usize = 0;
    let mut j: usize = 0;
    while i < SPEC_LEN * 16
        invariant
            0 < n <= 2048,
            n == waveform@.len(),
            i <= 32768,
            j < n,
            j == i % n,
            out@ == Seq::new(i as nat, |k: int| waveform@[k % (n as int)]),
        decreases 32768 - i,
    {
        out.push(waveform[j]);
        proof {
            vstd::arithmetic::div_mod::lemma_fundamental_div_mod(i as int, n as int);
            let q = i as int / n as int;
            if j + 1 < n {
                vstd::arithmetic::div_mod::lemma_fundamental_div_mod_converse(i + 1, n as int, q, j + 1);
            } else {
                assert((q + 1) * (n as int) == q * (n as int) + n) by (nonlinear_arith);
                vstd::arithmetic::div_mod::lemma_fundamental_div_mod_converse(i + 1, n as int, q + 1, 0);
            }
        }
        i = i + 1;
        j = if j + 1 < n { j + 1 } else { 0 };
        assert(out@ =~= Seq::new(i as nat, |k: int| waveform@[k % (n as int)]));
    }
    out
}

/// `x` as four bytes, most significant first.
pub open spec fn be32(x: int) -> Seq<u8> {
    seq![((x / 16777216) % 256) as u8, ((x / 65536) % 256) as u8, ((x / 256) % 256) as u8, (x % 256) as u8]
}

/// The first bytes of a PNG file of `width` by `height` pixels in RGBA with
/// 8 bits per sample, not interlaced: the signature, and the `IHDR` chunk up
/// to its checksum.
pub open spec fn png_head(width: int, height: int) -> Seq<u8> {
    seq![137u8, 80, 78, 71, 13, 10, 26, 10] + seq![0u8, 0, 0, 13] + seq![73u8, 72, 68, 82]
        + be32(width) + be32(height) + seq![8u8, 6, 0, 0, 0]
}

/// The number that four bytes give, most significant first.
pub open spec fn be32_value(b: Seq<u8>) -> int {
    b[0] * 16777216 + b[1] * 65536 + b[2] * 256 + b[3]
}

/// The chunk that closes every PNG file: `IEND`, with no data, and its checksum.
pub open spec fn png_end() -> Seq<u8> {
    seq![0u8, 0, 0, 0, 73, 69, 78, 68, 0xae, 0x42, 0x60, 0x82]
}

/// `r` is laid out as `png::Encoder` writes a `width` by `height` image in
/// 8-bit RGBA: the header (`png_head`) and the checksum of its `IHDR` chunk,
/// one `IDAT` chunk whose length field gives the length of its data (modulo
/// 2^32, the range of the field), followed by its checksum, and the closing
/// `IEND` chunk.
pub open spec fn png_file(r: Seq<u8>, width: int, height: int) -> bool {
    &&& r.len() >= 57
    &&& r.subrange(0, 29) == png_head(width, height)
    &&& r.subrange(37, 41) == seq![73u8, 68, 65, 84]
    &&& be32_value(r.subrange(33, 37)) == (r.len() - 57) % 4294967296
    &&& r.subrange(r.len() - 12, r.len() as int) == png_end()
}

/// A PNG image of the spectrogram of `samples`, `width` by `height` pixels,
/// with `num_bins` frequency bins on a logarithmic scale in the default
/// colour theme.
///
/// Calls `sonogram::SpecOptionsBuilder::new(num_bins)`,
/// `load_data_from_memory(samples, sample_rate)`, `build()`, `compute()`,
/// `sonogram::ColourGradient::create(ColourTheme::Default)` and
/// `to_png_in_memory(FrequencyScale::Log, .., width, height)`. `build` fails
/// only on empty samples and `compute` needs at least `num_bins` samples, so
/// those are required. The logarithmic frequency scale integrates each
/// column over rows whose ends are computed in `f32`; for very many bins
/// (about a million and more) the top row can round to one past the column
/// and index out of it, so the bins are limited to 4096, twice `SPEC_LEN`,
/// where rounding stays far from that. Also required are an image size that fits the PNG header and an
/// RGBA buffer that fits in memory. The width must not be zero: `png`
/// splits the image data into rows of the row length, and a zero length
/// panics. The file is laid out as `png_file` says: `png::Writer` writes the
/// signature and the `IHDR` chunk for an 8-bit RGBA image of that size, the
/// compressed rows in one `IDAT` chunk, and `IEND` when it is dropped.
/// Nothing is claimed of the pixels or of the compressed data: the FFT that
/// `rustfft` plans may differ from one processor to another.
#[verifier::external_body]
fn render_spectrogram(samples: Vec<i16>, sample_rate: u32, num_bins: usize, width: usize, height: usize) -> (r: Vec<u8>)
    requires
        0 < num_bins <= samples@.len(),
        num_bins <= 4096,
        0 < width <= u32::MAX,
        height <= u32::MAX,
        width * height * 4 <= usize::MAX,
    ensures
        png_file(r@, width as int, height as int),
{
    let builder = sonogram::SpecOptionsBuilder::new(num_bins).load_data_from_memory(samples, sample_rate);
    let mut spectrograph = builder.build().unwrap();
    let mut spectrogram = spectrograph.compute();
    let mut gradient = sonogram::ColourGradient::create(sonogram::ColourTheme::Default);
    spectrogram.to_png_in_memory(sonogram::FrequencyScale::Log, &mut gradient, width, height).unwrap()
}

/// A 1000 by 150 pixel PNG image of the spectrogram of `waveform`, computed
/// from `spectrum_input(waveform)` with `SPEC_LEN` frequency bins: a PNG
/// file of that size in 8-bit RGBA (see `png_file`).
pub fn get_spec(waveform: Vec<i16>, sr: u32) -> (r: Vec<u8>)
    requires
        waveform@.len() > 0,
    ensures
        png_file(r@, 1000, 150),
{
    let samples = spectrum_input(waveform);
    render_spectrogram(samples, sr, SPEC_LEN, 1000, 150)
}

} // verus!
