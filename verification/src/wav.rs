use vstd::prelude::*;
use crate::deepgram::DeepgramProvider;

verus! {

/// Little-endian bytes of a 16-bit value.
pub open spec fn le_u16(x: u16) -> Seq<u8> {
    seq![(x & 0xff) as u8, (x >> 8) as u8]
}

/// Little-endian bytes of a 32-bit value.
pub open spec fn le_u32(x: u32) -> Seq<u8> {
    seq![(x & 0xff) as u8, ((x >> 8) & 0xff) as u8, ((x >> 16) & 0xff) as u8, (x >> 24) as u8]
}

/// The 16-bit little-endian value stored at `b[i]`, `b[i + 1]`.
pub open spec fn read_u16_le(b: Seq<u8>, i: int) -> u16 {
    ((b[i] as u16) | ((b[i + 1] as u16) << 8u16)) as u16
}

/// The 32-bit little-endian value stored at `b[i] .. b[i + 3]`.
pub open spec fn read_u32_le(b: Seq<u8>, i: int) -> u32 {
    ((b[i] as u32) | ((b[i + 1] as u32) << 8u32) | ((b[i + 2] as u32) << 16u32) | ((b[i + 3] as u32)
        << 24u32)) as u32
}

/// The four ASCII bytes "RIFF".
pub open spec fn riff_tag() -> Seq<u8> {
    seq![0x52u8, 0x49u8, 0x46u8, 0x46u8]
}

/// The four ASCII bytes "WAVE".
pub open spec fn wave_tag() -> Seq<u8> {
    seq![0x57u8, 0x41u8, 0x56u8, 0x45u8]
}

/// The four ASCII bytes "fmt ".
pub open spec fn fmt_tag() -> Seq<u8> {
    seq![0x66u8, 0x6du8, 0x74u8, 0x20u8]
}

/// The four ASCII bytes "data".
pub open spec fn data_tag() -> Seq<u8> {
    seq![0x64u8, 0x61u8, 0x74u8, 0x61u8]
}

/// The 44-byte header of a mono, 16-bit PCM WAV file holding `n` samples
/// at `sample_rate` samples per second. Sizes that do not fit in 32 bits
/// are stored truncated.
pub open spec fn wav_header(sample_rate: u32, n: nat) -> Seq<u8> {
    riff_tag() + le_u32((36 + 2 * n) as u32) + wave_tag() + fmt_tag() + le_u32(16) + le_u16(1)
        + le_u16(1) + le_u32(sample_rate) + le_u32((2 * sample_rate) as u32) + le_u16(2) + le_u16(
        16,
    ) + data_tag() + le_u32((2 * n) as u32)
}

/// The samples, each as two little-endian bytes.
pub open spec fn pcm16_bytes(s: Seq<i16>) -> Seq<u8>
    decreases s.len(),
{
    if s.len() == 0 {
        Seq::empty()
    } else {
        pcm16_bytes(s.drop_last()) + le_u16(s.last() as u16)
    }
}

/// A complete mono 16-bit PCM WAV file of the samples.
pub open spec fn wav_bytes(samples: Seq<i16>, sample_rate: u32) -> Seq<u8> {
    wav_header(sample_rate, samples.len()) + pcm16_bytes(samples)
}

proof fn lemma_u16_roundtrip(x: u16)
    ensures
        ((((x & 0xff) as u8) as u16) | ((((x >> 8) as u8) as u16) << 8u16)) == x,
{
    assert(((((x & 0xff) as u8) as u16) | ((((x >> 8) as u8) as u16) << 8u16)) == x)
        by (bit_vector);
}

proof fn lemma_u32_roundtrip(x: u32)
    ensures
        ((((x & 0xff) as u8) as u32) | (((((x >> 8) & 0xff) as u8) as u32) << 8u32) | (((((x
            >> 16) & 0xff) as u8) as u32) << 16u32) | ((((x >> 24) as u8) as u32) << 24u32)) == x,
{
    assert(((((x & 0xff) as u8) as u32) | (((((x >> 8) & 0xff) as u8) as u32) << 8u32) | (((((x
        >> 16) & 0xff) as u8) as u32) << 16u32) | ((((x >> 24) as u8) as u32) << 24u32)) == x)
        by (bit_vector);
}

proof fn lemma_read_u16(b: Seq<u8>, i: int, x: u16)
    requires
        0 <= i,
        i + 2 <= b.len(),
        b.subrange(i, i + 2) == le_u16(x),
    ensures
        read_u16_le(b, i) == x,
{
    assert(b[i] == b.subrange(i, i + 2)[0]);
    assert(b[i + 1] == b.subrange(i, i + 2)[1]);
    lemma_u16_roundtrip(x);
}

proof fn lemma_read_u32(b: Seq<u8>, i: int, x: u32)
    requires
        0 <= i,
        i + 4 <= b.len(),
        b.subrange(i, i + 4) == le_u32(x),
    ensures
        read_u32_le(b, i) == x,
{
    assert(b[i] == b.subrange(i, i + 4)[0]);
    assert(b[i + 1] == b.subrange(i, i + 4)[1]);
    assert(b[i + 2] == b.subrange(i, i + 4)[2]);
    assert(b[i + 3] == b.subrange(i, i + 4)[3]);
    lemma_u32_roundtrip(x);
}

proof fn lemma_i16_bits(x: i16)
    ensures
        ((x as u16) as i16) == x,
{
    assert(((x as u16) as i16) == x) by (bit_vector);
}

/// The PCM payload holds two bytes per sample, and the little-endian value
/// at byte `2 * i` is sample `i`.
pub proof fn lemma_pcm16_layout(s: Seq<i16>)
    ensures
        pcm16_bytes(s).len() == 2 * s.len(),
        forall|i: int|
            0 <= i < s.len() ==> pcm16_bytes(s).subrange(2 * i, 2 * i + 2) == le_u16(
                #[trigger] s[i] as u16,
            ),
    decreases s.len(),
{
    if s.len() > 0 {
        let p = s.drop_last();
        lemma_pcm16_layout(p);
        let b = pcm16_bytes(s);
        assert(b == pcm16_bytes(p) + le_u16(s.last() as u16));
        assert forall|i: int| 0 <= i < s.len() implies b.subrange(2 * i, 2 * i + 2) == le_u16(
            #[trigger] s[i] as u16,
        ) by {
            if i < s.len() - 1 {
                assert(p[i] == s[i]);
                assert(b.subrange(2 * i, 2 * i + 2) =~= pcm16_bytes(p).subrange(2 * i, 2 * i + 2));
            } else {
                assert(b.subrange(2 * i, 2 * i + 2) =~= le_u16(s.last() as u16));
            }
        }
    }
}

/// A WAV file made from samples describes them: it is 44 bytes longer than
/// twice the number of samples, its header carries the "RIFF", "WAVE",
/// "fmt " and "data" tags, PCM format, one channel, the sample rate, the
/// byte rate, a two-byte block of 16 bits and both sizes at their standard
/// offsets, and reading the payload back gives the samples in order.
pub proof fn lemma_wav_describes_samples(samples: Seq<i16>, sample_rate: u32)
    requires
        sample_rate <= 0x7fff_ffff,
    ensures
        wav_bytes(samples, sample_rate).len() == 44 + 2 * samples.len(),
        wav_bytes(samples, sample_rate).subrange(0, 4) == riff_tag(),
        read_u32_le(wav_bytes(samples, sample_rate), 4) == (36 + 2 * samples.len()) as u32,
        wav_bytes(samples, sample_rate).subrange(8, 12) == wave_tag(),
        wav_bytes(samples, sample_rate).subrange(12, 16) == fmt_tag(),
        read_u32_le(wav_bytes(samples, sample_rate), 16) == 16,
        read_u16_le(wav_bytes(samples, sample_rate), 20) == 1,
        read_u16_le(wav_bytes(samples, sample_rate), 22) == 1,
        read_u32_le(wav_bytes(samples, sample_rate), 24) == sample_rate,
        read_u32_le(wav_bytes(samples, sample_rate), 28) == 2 * sample_rate,
        read_u16_le(wav_bytes(samples, sample_rate), 32) == 2,
        read_u16_le(wav_bytes(samples, sample_rate), 34) == 16,
        wav_bytes(samples, sample_rate).subrange(36, 40) == data_tag(),
        read_u32_le(wav_bytes(samples, sample_rate), 40) == (2 * samples.len()) as u32,
        forall|i: int|
            0 <= i < samples.len() ==> read_u16_le(wav_bytes(samples, sample_rate), 44 + 2 * i)
                as i16 == #[trigger] samples[i],
{
    let n = samples.len();
    let h = wav_header(sample_rate, n);
    let b = wav_bytes(samples, sample_rate);
    lemma_pcm16_layout(samples);
    assert(h.len() == 44);
    assert(b.subrange(0, 4) =~= riff_tag());
    assert(b.subrange(4, 8) =~= le_u32((36 + 2 * n) as u32));
    lemma_read_u32(b, 4, (36 + 2 * n) as u32);
    assert(b.subrange(8, 12) =~= wave_tag());
    assert(b.subrange(12, 16) =~= fmt_tag());
    assert(b.subrange(16, 20) =~= le_u32(16));
    lemma_read_u32(b, 16, 16);
    assert(b.subrange(20, 22) =~= le_u16(1));
    lemma_read_u16(b, 20, 1);
    assert(b.subrange(22, 24) =~= le_u16(1));
    lemma_read_u16(b, 22, 1);
    assert(b.subrange(24, 28) =~= le_u32(sample_rate));
    lemma_read_u32(b, 24, sample_rate);
    assert(b.subrange(28, 32) =~= le_u32((2 * sample_rate) as u32));
    lemma_read_u32(b, 28, (2 * sample_rate) as u32);
    assert(b.subrange(32, 34) =~= le_u16(2));
    lemma_read_u16(b, 32, 2);
    assert(b.subrange(34, 36) =~= le_u16(16));
    lemma_read_u16(b, 34, 16);
    assert(b.subrange(36, 40) =~= data_tag());
    assert(b.subrange(40, 44) =~= le_u32((2 * n) as u32));
    lemma_read_u32(b, 40, (2 * n) as u32);
    assert forall|i: int| 0 <= i < n implies read_u16_le(b, 44 + 2 * i) as i16
        == #[trigger] samples[i] by {
        let p = pcm16_bytes(samples);
        assert(p.subrange(2 * i, 2 * i + 2) == le_u16(samples[i] as u16));
        assert(b.subrange(44 + 2 * i, 44 + 2 * i + 2) =~= p.subrange(2 * i, 2 * i + 2));
        lemma_read_u16(b, 44 + 2 * i, samples[i] as u16);
        lemma_i16_bits(samples[i]);
    }
}

fn push_u16_le(out: &mut Vec<u8>, x: u16)
    ensures
        final(out)@ == old(out)@ + le_u16(x),
{
    out.push((x & 0xff) as u8);
    out.push((x >> 8) as u8);
    assert(final(out)@ =~= old(out)@ + le_u16(x));
}

fn push_u32_le(out: &mut Vec<u8>, x: u32)
    ensures
        final(out)@ == old(out)@ + le_u32(x),
{
    out.push((x & 0xff) as u8);
    out.push(((x >> 8) & 0xff) as u8);
    out.push(((x >> 16) & 0xff) as u8);
    out.push((x >> 24) as u8);
    assert(final(out)@ =~= old(out)@ + le_u32(x));
}

fn push_tag(out: &mut Vec<u8>, a: u8, b: u8, c: u8, d: u8)
    ensures
        final(out)@ == old(out)@ + seq![a, b, c, d],
{
    out.push(a);
    out.push(b);
    out.push(c);
    out.push(d);
    assert(final(out)@ =~= old(out)@ + seq![a, b, c, d]);
}

impl DeepgramProvider {
    /// Encodes 16-bit PCM samples as a mono WAV file at `sample_rate`.
    pub fn samples_to_wav(samples: &[i16], sample_rate: u32) -> (wav: Vec<u8>)
        requires
            sample_rate <= 0x7fff_ffff,
            44 + 2 * samples@.len() <= usize::MAX,
        ensures
            wav@ == wav_bytes(samples@, sample_rate),
    {
        let num_samples = samples.len();
        let byte_rate: u32 = sample_rate * 2;
        let data_size: usize = num_samples * 2;
        let file_size: usize = 36 + data_size;

        let mut wav_data: Vec<u8> = Vec::with_capacity(44 + data_size);

        push_tag(&mut wav_data, 0x52, 0x49, 0x46, 0x46);
        push_u32_le(&mut wav_data, file_size as u32);
        push_tag(&mut wav_data, 0x57, 0x41, 0x56, 0x45);

        push_tag(&mut wav_data, 0x66, 0x6d, 0x74, 0x20);
        push_u32_le(&mut wav_data, 16);
        push_u16_le(&mut wav_data, 1);
        push_u16_le(&mut wav_data, 1);
        push_u32_le(&mut wav_data, sample_rate);
        push_u32_le(&mut wav_data, byte_rate);
        push_u16_le(&mut wav_data, 2);
        push_u16_le(&mut wav_data, 16);

        push_tag(&mut wav_data, 0x64, 0x61, 0x74, 0x61);
        push_u32_le(&mut wav_data, data_size as u32);

        assert(wav_data@ =~= wav_header(sample_rate, samples@.len()));
        assert(samples@.take(0) =~= Seq::<i16>::empty());

        let mut i: usize = 0;
        while i < num_samples
            invariant
                num_samples == samples@.len(),
                i <= num_samples,
                wav_data@ == wav_header(sample_rate, samples@.len()) + pcm16_bytes(
                    samples@.take(i as int),
                ),
            decreases num_samples - i,
        {
            let s: i16 = samples[i];
            push_u16_le(&mut wav_data, s as u16);
            proof {
                let t = samples@.take(i + 1);
                assert(t.drop_last() =~= samples@.take(i as int));
                assert(t.last() == s);
            }
            i = i + 1;
        }
        assert(samples@.take(num_samples as int) =~= samples@);
        wav_data
    }
}

} // verus!
