use vstd::prelude::*;
use crate::audio::PcmAudio;
use crate::errors::VoxputError;

verus! {

/// Little-endian bytes of a 16-bit value.
pub open spec fn le16(x: u16) -> Seq<u8> {
    seq![(x & 0xff) as u8, (x >> 8) as u8]
}

/// Little-endian bytes of a 32-bit value.
pub open spec fn le32(x: u32) -> Seq<u8> {
    seq![(x & 0xff) as u8, ((x >> 8) & 0xff) as u8, ((x >> 16) & 0xff) as u8, (x >> 24) as u8]
}

/// The 16-bit value stored little-endian at `b[i..i + 2]`.
pub open spec fn u16_at(b: Seq<u8>, i: int) -> u16 {
    (b[i] as u16) | ((b[i + 1] as u16) << 8)
}

/// The 32-bit value stored little-endian at `b[i..i + 4]`.
pub open spec fn u32_at(b: Seq<u8>, i: int) -> u32 {
    (b[i] as u32) | ((b[i + 1] as u32) << 8) | ((b[i + 2] as u32) << 16) | ((b[i + 3] as u32) << 24)
}

pub open spec fn tag_riff() -> Seq<u8> {
    seq![0x52u8, 0x49, 0x46, 0x46]
}

pub open spec fn tag_wave() -> Seq<u8> {
    seq![0x57u8, 0x41, 0x56, 0x45]
}

pub open spec fn tag_fmt() -> Seq<u8> {
    seq![0x66u8, 0x6d, 0x74, 0x20]
}

pub open spec fn tag_data() -> Seq<u8> {
    seq![0x64u8, 0x61, 0x74, 0x61]
}

/// Whether `n` samples at `rate` fit the 32-bit size fields of the header.
pub open spec fn encodable(n: nat, rate: nat) -> bool {
    36 + 2 * n <= u32::MAX && 2 * rate <= u32::MAX
}

/// The 44-byte header of a mono 16-bit PCM file with `n` samples at `rate`.
pub open spec fn wav_header(n: u32, rate: u32) -> Seq<u8> {
    tag_riff() + le32((36 + 2 * n) as u32) + tag_wave() + tag_fmt() + le32(16) + le16(1) + le16(1)
        + le32(rate) + le32((2 * rate) as u32) + le16(2) + le16(16) + tag_data() + le32(
        (2 * n) as u32,
    )
}

/// Sample data: each sample's two's-complement bits, little-endian.
pub open spec fn pcm_bytes(s: Seq<i16>) -> Seq<u8>
    decreases s.len(),
{
    if s.len() == 0 {
        Seq::empty()
    } else {
        pcm_bytes(s.drop_last()) + le16(s.last() as u16)
    }
}

/// The complete file for `samples` at `rate`.
pub open spec fn wav_bytes(samples: Seq<i16>, rate: u32) -> Seq<u8> {
    wav_header(samples.len() as u32, rate) + pcm_bytes(samples)
}

/// Detail of the error for audio too large for the header.
pub open spec fn oversize_text() -> Seq<char> {
    "audio does not fit a WAV header"@
}

/// Header fields of a PCM file.
#[derive(Debug, Clone, Copy, PartialEq, Eq, Structural)]
pub struct WavHeader {
    pub audio_format: u16,
    pub channels: u16,
    pub sample_rate: u32,
    pub byte_rate: u32,
    pub block_align: u16,
    pub bits_per_sample: u16,
    /// Length of the sample data in bytes.
    pub data_len: u32,
}

/// The header fields read back from `b` by the byte layout, if `b` is long
/// enough and carries the four chunk tags where the layout puts them.
pub open spec fn parse_header(b: Seq<u8>) -> Option<WavHeader> {
    if b.len() >= 44 && b.subrange(0, 4) == tag_riff() && b.subrange(8, 12) == tag_wave()
        && b.subrange(12, 16) == tag_fmt() && b.subrange(36, 40) == tag_data() {
        Some(
            WavHeader {
                audio_format: u16_at(b, 20),
                channels: u16_at(b, 22),
                sample_rate: u32_at(b, 24),
                byte_rate: u32_at(b, 28),
                block_align: u16_at(b, 32),
                bits_per_sample: u16_at(b, 34),
                data_len: u32_at(b, 40),
            },
        )
    } else {
        None
    }
}

/// Number of sample frames that the data of a header holds.
pub open spec fn frame_count(h: WavHeader) -> nat {
    if h.block_align == 0 {
        0
    } else {
        h.data_len as nat / h.block_align as nat
    }
}

proof fn lemma_pcm_len(s: Seq<i16>)
    ensures
        pcm_bytes(s).len() == 2 * s.len(),
    decreases s.len(),
{
    if s.len() > 0 {
        lemma_pcm_len(s.drop_last());
    }
}

proof fn lemma_le16_back(x: u16)
    ensures
        ((((x & 0xff) as u8) as u16) | ((((x >> 8) as u8) as u16) << 8)) == x,
{
    assert(((((x & 0xff) as u8) as u16) | ((((x >> 8) as u8) as u16) << 8)) == x) by (bit_vector);
}

proof fn lemma_le32_back(x: u32)
    ensures
        ((((x & 0xff) as u8) as u32) | (((((x >> 8) & 0xff) as u8) as u32) << 8) | (((((x >> 16)
            & 0xff) as u8) as u32) << 16) | ((((x >> 24) as u8) as u32) << 24)) == x,
{
    assert(((((x & 0xff) as u8) as u32) | (((((x >> 8) & 0xff) as u8) as u32) << 8) | (((((x
        >> 16) & 0xff) as u8) as u32) << 16) | ((((x >> 24) as u8) as u32) << 24)) == x)
        by (bit_vector);
}

fn push_u16(buf: &mut Vec<u8>, x: u16)
    ensures
        final(buf)@ == old(buf)@ + le16(x),
{
    buf.push((x & 0xff) as u8);
    buf.push((x >> 8) as u8);
    assert(final(buf)@ =~= old(buf)@ + le16(x));
}

fn push_u32(buf: &mut Vec<u8>, x: u32)
    ensures
        final(buf)@ == old(buf)@ + le32(x),
{
    buf.push((x & 0xff) as u8);
    buf.push(((x >> 8) & 0xff) as u8);
    buf.push(((x >> 16) & 0xff) as u8);
    buf.push((x >> 24) as u8);
    assert(final(buf)@ =~= old(buf)@ + le32(x));
}

fn push_tag(buf: &mut Vec<u8>, t0: u8, t1: u8, t2: u8, t3: u8)
    ensures
        final(buf)@ == old(buf)@ + seq![t0, t1, t2, t3],
{
    buf.push(t0);
    buf.push(t1);
    buf.push(t2);
    buf.push(t3);
    assert(final(buf)@ =~= old(buf)@ + seq![t0, t1, t2, t3]);
}

/// Encodes mono audio as a 16-bit PCM WAV file in memory. Fails when the
/// sample count or the rate is too large for the header's 32-bit size fields.
pub fn encode_wav(audio: &PcmAudio) -> (r: Result<Vec<u8>, VoxputError>)
    ensures
        r is Ok <==> encodable(audio.samples@.len(), audio.sample_rate as nat),
        r matches Ok(bytes) ==> bytes@ == wav_bytes(audio.samples@, audio.sample_rate),
        r matches Err(e) ==> (e matches VoxputError::Audio(m) && m@ == oversize_text()),
{
    let n = audio.samples.len();
    let rate = audio.sample_rate;
    if n > 2147483629 || rate > 2147483647 {
        return Err(VoxputError::Audio(String::from_str("audio does not fit a WAV header")));
    }
    let num_samples = n as u32;
    let data_size: u32 = num_samples * 2;
    let mut buf: Vec<u8> = Vec::new();
    push_tag(&mut buf, 0x52, 0x49, 0x46, 0x46);
    push_u32(&mut buf, 36 + data_size);
    push_tag(&mut buf, 0x57, 0x41, 0x56, 0x45);
    push_tag(&mut buf, 0x66, 0x6d, 0x74, 0x20);
    push_u32(&mut buf, 16);
    push_u16(&mut buf, 1);
    push_u16(&mut buf, 1);
    push_u32(&mut buf, rate);
    push_u32(&mut buf, rate * 2);
    push_u16(&mut buf, 2);
    push_u16(&mut buf, 16);
    push_tag(&mut buf, 0x64, 0x61, 0x74, 0x61);
    push_u32(&mut buf, data_size);
    let ghost header = buf@;
    assert(header =~= wav_header(num_samples, rate));
    let mut i: usize = 0;
    while i < n
        invariant
            i <= n,
            n == audio.samples@.len(),
            buf@ == header + pcm_bytes(audio.samples@.take(i as int)),
        decreases n - i,
    {
        let v = #[verifier::truncate] (audio.samples[i] as u16);
        push_u16(&mut buf, v);
        proof {
            let s = audio.samples@.take(i as int + 1);
            assert(s.drop_last() =~= audio.samples@.take(i as int));
        }
        i = i + 1;
        assert(buf@ =~= header + pcm_bytes(audio.samples@.take(i as int)));
    }
    assert(audio.samples@.take(n as int) =~= audio.samples@);
    Ok(buf)
}

fn u16_le(b: &[u8], i: usize) -> (r: u16)
    requires
        i + 2 <= b@.len(),
    ensures
        r == u16_at(b@, i as int),
{
    (b[i] as u16) | ((b[i + 1] as u16) << 8)
}

fn u32_le(b: &[u8], i: usize) -> (r: u32)
    requires
        i + 4 <= b@.len(),
    ensures
        r == u32_at(b@, i as int),
{
    (b[i] as u32) | ((b[i + 1] as u32) << 8) | ((b[i + 2] as u32) << 16) | ((b[i + 3] as u32)
        << 24)
}

fn tag_at(b: &[u8], i: usize, t0: u8, t1: u8, t2: u8, t3: u8) -> (r: bool)
    requires
        i + 4 <= b@.len(),
    ensures
        r == (b@.subrange(i as int, i + 4) == seq![t0, t1, t2, t3]),
{
    let r = b[i] == t0 && b[i + 1] == t1 && b[i + 2] == t2 && b[i + 3] == t3;
    proof {
        if r {
            assert(b@.subrange(i as int, i + 4) =~= seq![t0, t1, t2, t3]);
        } else if b@.subrange(i as int, i + 4) == seq![t0, t1, t2, t3] {
            assert(b@.subrange(i as int, i + 4)[0] == t0);
            assert(b@.subrange(i as int, i + 4)[1] == t1);
            assert(b@.subrange(i as int, i + 4)[2] == t2);
            assert(b@.subrange(i as int, i + 4)[3] == t3);
        }
    }
    r
}

/// Reads the header fields of a PCM WAV file by the byte layout that
/// [`encode_wav`] writes. `None` when the bytes are too few or a chunk tag is
/// not where the layout puts it.
pub fn decode_wav_header(b: &[u8]) -> (r: Option<WavHeader>)
    ensures
        r == parse_header(b@),
{
    if b.len() < 44 {
        return None;
    }
    if !tag_at(b, 0, 0x52, 0x49, 0x46, 0x46) || !tag_at(b, 8, 0x57, 0x41, 0x56, 0x45) || !tag_at(
        b,
        12,
        0x66,
        0x6d,
        0x74,
        0x20,
    ) || !tag_at(b, 36, 0x64, 0x61, 0x74, 0x61) {
        return None;
    }
    Some(
        WavHeader {
            audio_format: u16_le(b, 20),
            channels: u16_le(b, 22),
            sample_rate: u32_le(b, 24),
            byte_rate: u32_le(b, 28),
            block_align: u16_le(b, 32),
            bits_per_sample: u16_le(b, 34),
            data_len: u32_le(b, 40),
        },
    )
}

/// Number of sample frames that a decoded header announces.
pub fn frames_in(h: &WavHeader) -> (r: u32)
    ensures
        r == frame_count(*h),
{
    if h.block_align == 0 {
        0
    } else {
        h.data_len / (h.block_align as u32)
    }
}

proof fn lemma_u16_at_le16(b: Seq<u8>, i: int, x: u16)
    requires
        0 <= i,
        i + 2 <= b.len(),
        b.subrange(i, i + 2) == le16(x),
    ensures
        u16_at(b, i) == x,
{
    assert(b[i] == b.subrange(i, i + 2)[0]);
    assert(b[i + 1] == b.subrange(i, i + 2)[1]);
    lemma_le16_back(x);
}

proof fn lemma_u32_at_le32(b: Seq<u8>, i: int, x: u32)
    requires
        0 <= i,
        i + 4 <= b.len(),
        b.subrange(i, i + 4) == le32(x),
    ensures
        u32_at(b, i) == x,
{
    assert(b[i] == b.subrange(i, i + 4)[0]);
    assert(b[i + 1] == b.subrange(i, i + 4)[1]);
    assert(b[i + 2] == b.subrange(i, i + 4)[2]);
    assert(b[i + 3] == b.subrange(i, i + 4)[3]);
    lemma_le32_back(x);
}

/// Decoding the header of an encoded buffer gives back, field for field, the
/// header that was written: PCM, one channel, the original rate, 16 bits, and
/// a data length from which the original sample count is recovered exactly.
pub proof fn lemma_header_round_trip(samples: Seq<i16>, rate: u32)
    requires
        encodable(samples.len(), rate as nat),
    ensures
        parse_header(wav_bytes(samples, rate)) == Some(
            WavHeader {
                audio_format: 1,
                channels: 1,
                sample_rate: rate,
                byte_rate: (2 * rate) as u32,
                block_align: 2,
                bits_per_sample: 16,
                data_len: (2 * samples.len()) as u32,
            },
        ),
        frame_count(parse_header(wav_bytes(samples, rate))->Some_0) == samples.len(),
{
    let n = samples.len() as u32;
    let b = wav_bytes(samples, rate);
    let h = wav_header(n, rate);
    lemma_pcm_len(samples);
    lemma_header_fields(n, rate);
    assert(b.subrange(0, 4) =~= h.subrange(0, 4));
    assert(b.subrange(8, 12) =~= h.subrange(8, 12));
    assert(b.subrange(12, 16) =~= h.subrange(12, 16));
    assert(b.subrange(36, 40) =~= h.subrange(36, 40));
    assert(b.subrange(20, 22) =~= h.subrange(20, 22));
    assert(b.subrange(22, 24) =~= h.subrange(22, 24));
    assert(b.subrange(24, 28) =~= h.subrange(24, 28));
    assert(b.subrange(28, 32) =~= h.subrange(28, 32));
    assert(b.subrange(32, 34) =~= h.subrange(32, 34));
    assert(b.subrange(34, 36) =~= h.subrange(34, 36));
    assert(b.subrange(40, 44) =~= h.subrange(40, 44));
    lemma_u16_at_le16(b, 20, 1);
    lemma_u16_at_le16(b, 22, 1);
    lemma_u32_at_le32(b, 24, rate);
    lemma_u32_at_le32(b, 28, (2 * rate) as u32);
    lemma_u16_at_le16(b, 32, 2);
    lemma_u16_at_le16(b, 34, 16);
    lemma_u32_at_le32(b, 40, (2 * n) as u32);
}

/// Where each field of the header lies.
proof fn lemma_header_fields(n: u32, rate: u32)
    ensures
        wav_header(n, rate).len() == 44,
        wav_header(n, rate).subrange(0, 4) == tag_riff(),
        wav_header(n, rate).subrange(8, 12) == tag_wave(),
        wav_header(n, rate).subrange(12, 16) == tag_fmt(),
        wav_header(n, rate).subrange(20, 22) == le16(1),
        wav_header(n, rate).subrange(22, 24) == le16(1),
        wav_header(n, rate).subrange(24, 28) == le32(rate),
        wav_header(n, rate).subrange(28, 32) == le32((2 * rate) as u32),
        wav_header(n, rate).subrange(32, 34) == le16(2),
        wav_header(n, rate).subrange(34, 36) == le16(16),
        wav_header(n, rate).subrange(36, 40) == tag_data(),
        wav_header(n, rate).subrange(40, 44) == le32((2 * n) as u32),
{
    let h = wav_header(n, rate);
    let p0 = tag_riff() + le32((36 + 2 * n) as u32) + tag_wave() + tag_fmt() + le32(16);
    let p1 = p0 + le16(1);
    let p2 = p1 + le16(1);
    let p3 = p2 + le32(rate);
    let p4 = p3 + le32((2 * rate) as u32);
    let p5 = p4 + le16(2);
    let p6 = p5 + le16(16);
    let p7 = p6 + tag_data();
    assert(p0.subrange(0, 4) =~= tag_riff());
    assert(p0.subrange(8, 12) =~= tag_wave());
    assert(p0.subrange(12, 16) =~= tag_fmt());
    assert(h.subrange(0, 20) =~= p0);
    assert(h.subrange(20, 22) =~= le16(1));
    assert(h.subrange(22, 24) =~= le16(1));
    assert(h.subrange(24, 28) =~= le32(rate));
    assert(h.subrange(28, 32) =~= le32((2 * rate) as u32));
    assert(h.subrange(32, 34) =~= le16(2));
    assert(h.subrange(34, 36) =~= le16(16));
    assert(h.subrange(36, 40) =~= tag_data());
    assert(h.subrange(40, 44) =~= le32((2 * n) as u32));
    assert(h.subrange(0, 4) =~= p0.subrange(0, 4));
    assert(h.subrange(8, 12) =~= p0.subrange(8, 12));
    assert(h.subrange(12, 16) =~= p0.subrange(12, 16));
}

} // verus!
