//! WAV files: encoding speech segments for upload, and reading files.
use vstd::prelude::*;

verus! {

/// Number of bits of an encoded sample.
pub const BITS_PER_SAMPLE: u16 = 16;

/// Number of channels of an encoded segment.
pub const CHANNELS: u16 = 1;

/// The errors of the `hound` crate.
#[verifier::external_type_specification]
#[verifier::external_body]
pub struct ExHoundError(hound::Error);

/// Why a segment could not be encoded.
#[derive(Debug, Clone, Copy, PartialEq, Eq, Structural)]
pub enum WavError {
    /// The encoder refused the segment.
    EncodingFailed,
}

/// A 16-bit number in little-endian order.
pub open spec fn le16(x: int) -> Seq<u8> {
    seq![(x % 0x100) as u8, (x / 0x100 % 0x100) as u8]
}

/// A 32-bit number in little-endian order.
pub open spec fn le32(x: int) -> Seq<u8> {
    seq![
        (x % 0x100) as u8,
        (x / 0x100 % 0x100) as u8,
        (x / 0x10000 % 0x100) as u8,
        (x / 0x1000000 % 0x100) as u8,
    ]
}

/// The bytes of a row of samples, each in two's complement and little-endian order.
pub open spec fn pcm_bytes(samples: Seq<i16>) -> Seq<u8>
    decreases samples.len(),
{
    if samples.len() == 0 {
        Seq::empty()
    } else {
        pcm_bytes(samples.drop_last()) + le16(
            if samples.last() < 0 {
                samples.last() + 0x10000
            } else {
                samples.last() as int
            },
        )
    }
}

/// A WAV file with one channel of 16-bit samples: the RIFF header, the format chunk and the data
/// chunk.
pub open spec fn wav_file(samples: Seq<i16>, sample_rate: int) -> Seq<u8> {
    let data_len = 2 * samples.len() as int;
    // "RIFF", the length of what follows, "WAVE"
    seq![0x52u8, 0x49, 0x46, 0x46] + le32(36 + data_len) + seq![0x57u8, 0x41, 0x56, 0x45]
    // "fmt ", its length, PCM, one channel
     + seq![0x66u8, 0x6d, 0x74, 0x20] + le32(16) + le16(1) + le16(1)
    // samples per second, bytes per second, bytes per frame, bits per sample
     + le32(sample_rate) + le32(2 * sample_rate) + le16(2) + le16(16)
    // "data", its length, the samples
     + seq![0x64u8, 0x61, 0x74, 0x61] + le32(data_len) + pcm_bytes(samples)
}

/// `hound::WavWriter`, writing to memory: the header for the given format, each sample in turn by
/// `write_sample`, and the lengths filled in by `finalize`.  For one channel of 16 bits nothing
/// can fail, and the bytes are those of `wav_file`.  The writer divides by the sample rate,
/// counts bytes per second and in total in 32 bits, and overflows beyond them, so those inputs
/// are left out.
#[verifier::external_body]
fn write_wav(
    samples: &[i16],
    sample_rate: u32,
    channels: u16,
    bits_per_sample: u16,
) -> (r: Result<Vec<u8>, hound::Error>)
    requires
        channels == 1,
        bits_per_sample == 16,
        0 < sample_rate <= 0x7fff_ffff,
        2 * samples@.len() + 36 <= u32::MAX,
    ensures
        r is Ok,
        r->Ok_0@ == wav_file(samples@, sample_rate as int),
{
    let sample_format = hound::SampleFormat::Int;
    let spec = hound::WavSpec { channels, sample_rate, bits_per_sample, sample_format };
    let mut cursor = std::io::Cursor::new(Vec::new());
    let mut writer = hound::WavWriter::new(&mut cursor, spec)?;
    for sample in samples {
        writer.write_sample(*sample)?;
    }
    writer.finalize()?;
    Ok(cursor.into_inner())
}

/// Encode PCM samples as a WAV file in memory.
pub fn encode_wav(samples: &[i16], sample_rate: u32) -> (r: Result<Vec<u8>, WavError>)
    requires
        0 < sample_rate <= 0x7fff_ffff,
        2 * samples@.len() + 36 <= u32::MAX,
    ensures
        r matches Ok(bytes) && bytes@ == wav_file(samples@, sample_rate as int),
{
    match write_wav(samples, sample_rate, CHANNELS, BITS_PER_SAMPLE) {
        Ok(bytes) => Ok(bytes),
        Err(_) => Err(WavError::EncodingFailed),
    }
}

/// What the header of a WAV file says.
#[derive(Debug, Clone, Copy, PartialEq, Eq, Structural)]
pub struct WavHeader {
    /// The number of channels.
    pub channels: u16,
    /// The number of samples per second in each channel.
    pub sample_rate: u32,
    /// The number of bits in a sample.
    pub bits_per_sample: u16,
    /// Whether the samples are floating-point numbers.
    pub is_float: bool,
}

/// The number of channels, the sample rate, the number of bits in a sample and whether samples
/// are floating-point numbers, as the header of a WAV file gives them: `None` where the bytes do
/// not start with a header that can be read.
pub uninterp spec fn wav_header(bytes: Seq<u8>) -> Option<(u16, u32, u16, bool)>;

/// The samples of a WAV file with integer samples, those of all channels in turn: `None` where
/// one of them cannot be read as an integer of 32 bits.
pub uninterp spec fn wav_integers(bytes: Seq<u8>) -> Option<Seq<i32>>;

/// `hound::WavReader::new` and `spec`, reading from memory.  What they find is `wav_header`.
#[verifier::external_body]
fn read_spec(bytes: &[u8]) -> (r: Result<(u16, u32, u16, bool), hound::Error>)
    ensures
        r is Ok == wav_header(bytes@) is Some,
        r is Ok ==> wav_header(bytes@) == Some(r->Ok_0),
{
    let spec = hound::WavReader::new(bytes)?.spec();
    let is_float = match spec.sample_format {
        hound::SampleFormat::Float => true,
        hound::SampleFormat::Int => false,
    };
    Ok((spec.channels, spec.sample_rate, spec.bits_per_sample, is_float))
}

/// `hound::WavReader::into_samples`, reading integers of 32 bits from memory.  What comes out is
/// `wav_integers`.
#[verifier::external_body]
fn read_samples(bytes: &[u8]) -> (r: Result<Vec<i32>, hound::Error>)
    ensures
        r is Ok == wav_integers(bytes@) is Some,
        r is Ok ==> wav_integers(bytes@) == Some(r->Ok_0@),
{
    hound::WavReader::new(bytes)?.into_samples::<i32>().collect()
}

/// Reads the header of a WAV file.
pub fn read_header(bytes: &[u8]) -> (r: Option<WavHeader>)
    ensures
        header_view(r) == wav_header(bytes@),
{
    match read_spec(bytes) {
        Ok((channels, sample_rate, bits_per_sample, is_float)) => Some(
            WavHeader { channels, sample_rate, bits_per_sample, is_float },
        ),
        Err(_) => None,
    }
}

/// A header as a tuple of its numbers.
pub open spec fn header_view(header: Option<WavHeader>) -> Option<(u16, u32, u16, bool)> {
    match header {
        Some(h) => Some((h.channels, h.sample_rate, h.bits_per_sample, h.is_float)),
        None => None,
    }
}

/// Reads the samples of a WAV file with integer samples.
pub fn read_integers(bytes: &[u8]) -> (r: Option<Vec<i32>>)
    ensures
        samples_view(r) == wav_integers(bytes@),
{
    match read_samples(bytes) {
        Ok(samples) => Some(samples),
        Err(_) => None,
    }
}

/// The samples that were read, taken by their contents.
pub open spec fn samples_view(samples: Option<Vec<i32>>) -> Option<Seq<i32>> {
    match samples {
        Some(v) => Some(v@),
        None => None,
    }
}

proof fn lemma_pcm_len(samples: Seq<i16>)
    ensures
        pcm_bytes(samples).len() == 2 * samples.len(),
    decreases samples.len(),
{
    if samples.len() > 0 {
        lemma_pcm_len(samples.drop_last());
    }
}

/// An encoded segment has a header of 44 bytes, marked `RIFF` and `WAVE`, and two bytes for
/// each sample.
pub proof fn law_layout(samples: Seq<i16>, sample_rate: int)
    ensures
        wav_file(samples, sample_rate).len() == 44 + 2 * samples.len(),
        wav_file(samples, sample_rate).subrange(0, 4) == seq![0x52u8, 0x49, 0x46, 0x46],
        wav_file(samples, sample_rate).subrange(8, 12) == seq![0x57u8, 0x41, 0x56, 0x45],
        wav_file(samples, sample_rate).skip(44) == pcm_bytes(samples),
{
    lemma_pcm_len(samples);
    let f = wav_file(samples, sample_rate);
    assert(f.subrange(0, 4) =~= seq![0x52u8, 0x49, 0x46, 0x46]);
    assert(f.subrange(8, 12) =~= seq![0x57u8, 0x41, 0x56, 0x45]);
    assert(f.skip(44) =~= pcm_bytes(samples));
}

/// Two segments with the same encoding are the same.
pub proof fn law_encoding_loses_nothing(a: Seq<i16>, b: Seq<i16>)
    requires
        pcm_bytes(a) == pcm_bytes(b),
    ensures
        a == b,
    decreases a.len(),
{
    lemma_pcm_len(a);
    lemma_pcm_len(b);
    if a.len() > 0 {
        let x = pcm_bytes(a);
        let y = pcm_bytes(b);
        let n = x.len() as int;
        lemma_pcm_len(a.drop_last());
        lemma_pcm_len(b.drop_last());
        assert(pcm_bytes(a.drop_last()) =~= x.take(n - 2));
        assert(pcm_bytes(b.drop_last()) =~= y.take(n - 2));
        law_encoding_loses_nothing(a.drop_last(), b.drop_last());
        assert(x[n - 2] == y[n - 2] && x[n - 1] == y[n - 1]);
        assert(a.last() == b.last());
        assert(a =~= a.drop_last().push(a.last()));
        assert(b =~= b.drop_last().push(b.last()));
    } else {
        assert(a =~= b);
    }
}

} // verus!
