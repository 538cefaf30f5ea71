//! The WAV files that captures are saved as: 16-bit mono PCM.
use vstd::prelude::*;

use crate::acoustic::{le16, le32, tag_at, wav_header, WavInfo};
use crate::runtime_paths::join;
use crate::text::{decimal, push_decimal, push_str, string_of};

verus! {

/// The two little-endian bytes of `v < 2^16`.
pub open spec fn le16_bytes(v: nat) -> Seq<u8> {
    seq![(v % 256) as u8, ((v / 256) % 256) as u8]
}

/// The four little-endian bytes of `v < 2^32`.
pub open spec fn le32_bytes(v: nat) -> Seq<u8> {
    seq![
        (v % 256) as u8,
        ((v / 256) % 256) as u8,
        ((v / 65536) % 256) as u8,
        ((v / 16777216) % 256) as u8,
    ]
}

/// The 16-bit two's-complement pattern of a sample.
pub open spec fn sample_bits(s: i16) -> nat {
    if s < 0 {
        (s + 65536) as nat
    } else {
        s as nat
    }
}

/// The little-endian bytes of the samples, in order.
pub open spec fn pcm_bytes(samples: Seq<i16>) -> Seq<u8>
    decreases samples.len(),
{
    if samples.len() == 0 {
        Seq::empty()
    } else {
        pcm_bytes(samples.drop_last()) + le16_bytes(sample_bits(samples.last()))
    }
}

/// The four ASCII bytes `a b c d`.
pub open spec fn tag(a: u8, b: u8, c: u8, d: u8) -> Seq<u8> {
    seq![a, b, c, d]
}

/// The 44-byte header of a 16-bit mono PCM WAV file.
pub open spec fn wav_mono_header(sample_rate: nat, data_len: nat) -> Seq<u8> {
    tag(0x52, 0x49, 0x46, 0x46) + le32_bytes(36 + data_len) + tag(0x57, 0x41, 0x56, 0x45) + tag(
        0x66,
        0x6d,
        0x74,
        0x20,
    ) + le32_bytes(16) + le16_bytes(1) + le16_bytes(1) + le32_bytes(sample_rate) + le32_bytes(
        sample_rate * 2,
    ) + le16_bytes(2) + le16_bytes(16) + tag(0x64, 0x61, 0x74, 0x61) + le32_bytes(data_len)
}

/// The bytes of a 16-bit mono PCM WAV file holding `samples`.
pub open spec fn wav_mono_file(sample_rate: nat, samples: Seq<i16>) -> Seq<u8> {
    wav_mono_header(sample_rate, 2 * samples.len()) + pcm_bytes(samples)
}

fn push_le16(out: &mut Vec<u8>, v: u32)
    requires
        v < 65536,
    ensures
        final(out)@ == old(out)@ + le16_bytes(v as nat),
{
    out.push((v % 256) as u8);
    out.push(((v / 256) % 256) as u8);
    assert(final(out)@ =~= old(out)@ + le16_bytes(v as nat));
}

fn push_le32(out: &mut Vec<u8>, v: u32)
    ensures
        final(out)@ == old(out)@ + le32_bytes(v as nat),
{
    out.push((v % 256) as u8);
    out.push(((v / 256) % 256) as u8);
    out.push(((v / 65536) % 256) as u8);
    out.push(((v / 16777216) % 256) as u8);
    assert(final(out)@ =~= old(out)@ + le32_bytes(v as nat));
}

fn push_tag(out: &mut Vec<u8>, a: u8, b: u8, c: u8, d: u8)
    ensures
        final(out)@ == old(out)@ + tag(a, b, c, d),
{
    out.push(a);
    out.push(b);
    out.push(c);
    out.push(d);
    assert(final(out)@ =~= old(out)@ + tag(a, b, c, d));
}

fn push_header(out: &mut Vec<u8>, sample_rate: u32, data_len: u32)
    requires
        sample_rate as nat * 2 <= u32::MAX,
        data_len as nat + 36 <= u32::MAX,
    ensures
        final(out)@ == old(out)@ + wav_mono_header(sample_rate as nat, data_len as nat),
{
    let ghost start = out@;
    push_tag(out, 0x52, 0x49, 0x46, 0x46);
    push_le32(out, 36 + data_len);
    push_tag(out, 0x57, 0x41, 0x56, 0x45);
    push_tag(out, 0x66, 0x6d, 0x74, 0x20);
    push_le32(out, 16);
    push_le16(out, 1);
    push_le16(out, 1);
    push_le32(out, sample_rate);
    push_le32(out, sample_rate * 2);
    push_le16(out, 2);
    push_le16(out, 16);
    push_tag(out, 0x64, 0x61, 0x74, 0x61);
    push_le32(out, data_len);
    assert(out@ =~= start + wav_mono_header(sample_rate as nat, data_len as nat));
}

/// The bytes of a 16-bit mono PCM WAV file holding `samples` at
/// `sample_rate`.
pub fn wav_mono_i16_bytes(sample_rate: u32, samples: &[i16]) -> (r: Vec<u8>)
    requires
        sample_rate as nat * 2 <= u32::MAX,
        2 * samples@.len() + 36 <= u32::MAX,
    ensures
        r@ == wav_mono_file(sample_rate as nat, samples@),
{
    let mut out: Vec<u8> = Vec::new();
    let n = samples.len();
    push_header(&mut out, sample_rate, (2 * n) as u32);
    let ghost header = out@;
    let mut i: usize = 0;
    while i < n
        invariant
            n == samples@.len(),
            i <= n,
            out@ == header + pcm_bytes(samples@.take(i as int)),
        decreases n - i,
    {
        let s = samples[i];
        let u: u32 = if s < 0 {
            (s as i32 + 65536) as u32
        } else {
            s as u32
        };
        assert(samples@.take(i + 1).drop_last() =~= samples@.take(i as int));
        assert(samples@.take(i + 1).last() == s);
        push_le16(&mut out, u);
        i = i + 1;
        assert(out@ =~= header + pcm_bytes(samples@.take(i as int)));
    }
    assert(samples@.take(n as int) =~= samples@);
    out
}

/// The name of a capture file: `himd-capture-<ms>.wav`.
pub open spec fn capture_file_name(epoch_ms: nat) -> Seq<char> {
    "himd-capture-"@ + decimal(epoch_ms) + ".wav"@
}

/// The path of the capture file made at `epoch_ms` in `captures_dir`.
pub fn build_capture_output_path(captures_dir: &str, epoch_ms: u128) -> (r: String)
    ensures
        r@ == join(captures_dir@, capture_file_name(epoch_ms as nat)),
{
    let mut name: Vec<char> = Vec::new();
    push_str(&mut name, "himd-capture-");
    push_decimal(&mut name, epoch_ms);
    push_str(&mut name, ".wav");
    assert(name@ =~= capture_file_name(epoch_ms as nat));
    let mut v = crate::text::chars_of(captures_dir);
    if v.len() > 0 && v[v.len() - 1] != '/' {
        v.push('/');
    }
    crate::text::push_chars(&mut v, &name);
    assert(v@ =~= join(captures_dir@, capture_file_name(epoch_ms as nat)));
    string_of(&v)
}

proof fn lemma_le32_roundtrip(v: nat, s: Seq<u8>, i: int)
    requires
        v < 0x1_0000_0000,
        0 <= i,
        i + 4 <= s.len(),
        s.subrange(i, i + 4) == le32_bytes(v),
    ensures
        le32(s, i) == v,
{
    assert(s[i] == le32_bytes(v)[0]);
    assert(s[i + 1] == le32_bytes(v)[1]);
    assert(s[i + 2] == le32_bytes(v)[2]);
    assert(s[i + 3] == le32_bytes(v)[3]);
}

proof fn lemma_le16_roundtrip(v: nat, s: Seq<u8>, i: int)
    requires
        v < 0x1_0000,
        0 <= i,
        i + 2 <= s.len(),
        s.subrange(i, i + 2) == le16_bytes(v),
    ensures
        le16(s, i) == v,
{
    assert(s[i] == le16_bytes(v)[0]);
    assert(s[i + 1] == le16_bytes(v)[1]);
}

proof fn lemma_pcm_len(samples: Seq<i16>)
    ensures
        pcm_bytes(samples).len() == 2 * samples.len(),
    decreases samples.len(),
{
    if samples.len() > 0 {
        lemma_pcm_len(samples.drop_last());
    }
}

/// The format chunk of a written file is consistent: its byte rate is the
/// sample rate times the channels times the bytes per sample, its block
/// size the channels times the bytes per sample, and the RIFF size counts
/// the whole file after the first eight bytes.
pub proof fn lemma_wav_fmt_consistent(sample_rate: nat, samples: Seq<i16>)
    requires
        sample_rate * 2 <= u32::MAX,
        2 * samples.len() + 36 <= u32::MAX,
    ensures
        ({
            let f = wav_mono_file(sample_rate, samples);
            let channels = le16(f, 22);
            let bits = le16(f, 34);
            &&& le16(f, 20) == 1
            &&& channels == 1
            &&& bits == 16
            &&& le32(f, 24) == sample_rate
            &&& le32(f, 28) == le32(f, 24) * channels * bits / 8
            &&& le16(f, 32) == channels * bits / 8
            &&& le32(f, 4) == f.len() - 8
            &&& le32(f, 40) == f.len() - 44
        }),
{
    let n = 2 * samples.len();
    let h = wav_mono_header(sample_rate, n);
    let f = wav_mono_file(sample_rate, samples);
    lemma_pcm_len(samples);
    assert(h.len() == 44);
    assert(f.subrange(0, 44) =~= h);
    assert(f.subrange(4, 8) =~= le32_bytes(36 + n));
    lemma_le32_roundtrip(36 + n, f, 4);
    assert(f.subrange(20, 22) =~= le16_bytes(1));
    lemma_le16_roundtrip(1, f, 20);
    assert(f.subrange(22, 24) =~= le16_bytes(1));
    lemma_le16_roundtrip(1, f, 22);
    assert(f.subrange(24, 28) =~= le32_bytes(sample_rate));
    lemma_le32_roundtrip(sample_rate, f, 24);
    assert(f.subrange(28, 32) =~= le32_bytes(sample_rate * 2));
    lemma_le32_roundtrip(sample_rate * 2, f, 28);
    assert(f.subrange(32, 34) =~= le16_bytes(2));
    lemma_le16_roundtrip(2, f, 32);
    assert(f.subrange(34, 36) =~= le16_bytes(16));
    lemma_le16_roundtrip(16, f, 34);
    assert(f.subrange(40, 44) =~= le32_bytes(n));
    lemma_le32_roundtrip(n, f, 40);
    assert(sample_rate * 1 * 16 / 8 == sample_rate * 2) by (nonlinear_arith);
}

/// A written capture file parses back to its format: one channel at the
/// sample rate, 16 bits per sample, the samples right after the 44-byte
/// header.  (A file without samples does not parse: the chunk walk stops
/// before the last eight bytes.)
pub proof fn lemma_wav_roundtrip(sample_rate: nat, samples: Seq<i16>)
    requires
        sample_rate * 2 <= u32::MAX,
        2 * samples.len() + 36 <= u32::MAX,
        samples.len() > 0,
    ensures
        wav_header(wav_mono_file(sample_rate, samples)) == Some(
            WavInfo {
                num_channels: 1,
                sample_rate: sample_rate as u32,
                bits_per_sample: 16,
                data_offset: 44,
                data_size: (2 * samples.len()) as usize,
            },
        ),
{
    let n = 2 * samples.len();
    let h = wav_mono_header(sample_rate, n);
    let f = wav_mono_file(sample_rate, samples);
    lemma_pcm_len(samples);
    assert(h.len() == 44);
    assert(f.subrange(0, 44) =~= h);
    assert(f.subrange(4, 8) =~= le32_bytes(36 + n));
    assert(f.subrange(16, 20) =~= le32_bytes(16));
    lemma_le32_roundtrip(16, f, 16);
    assert(f.subrange(22, 24) =~= le16_bytes(1));
    lemma_le16_roundtrip(1, f, 22);
    assert(f.subrange(24, 28) =~= le32_bytes(sample_rate));
    lemma_le32_roundtrip(sample_rate, f, 24);
    assert(f.subrange(34, 36) =~= le16_bytes(16));
    lemma_le16_roundtrip(16, f, 34);
    assert(f.subrange(40, 44) =~= le32_bytes(n));
    lemma_le32_roundtrip(n, f, 40);
    assert(tag_at(f, 0, 0x52, 0x49, 0x46, 0x46));
    assert(tag_at(f, 8, 0x57, 0x41, 0x56, 0x45));
    assert(!tag_at(f, 12, 0x64, 0x61, 0x74, 0x61));
    assert(tag_at(f, 36, 0x64, 0x61, 0x74, 0x61));
    assert(crate::acoustic::find_data_chunk(f, 36) == Some((44nat, n)));
    assert(crate::acoustic::find_data_chunk(f, 12) == Some((44nat, n)));
}

} // verus!
