//! Local acoustic analysis: WAV header parsing and the assembly of the
//! `audio_turn` answer from the provider's result and the local measurements.
use vstd::prelude::*;

use crate::provider::{emotion_view, AudioUnderstandingResult};
use crate::text::{copy_opt, copy_opt_strings, copy_str, copy_strings, opt_strings_view, opt_view};
use crate::types::{
    AcousticAnalysis, AudioTurn, AudioUnderstanding, Emotion, EnergyLevel, PausePattern,
    SpeechRate,
};

verus! {

// ---------------------------------------------------------------------------
// WAV parsing
// ---------------------------------------------------------------------------

/// Parsed WAV header info.
#[derive(Debug, Clone, Copy, PartialEq, Eq)]
pub struct WavInfo {
    pub num_channels: u16,
    pub sample_rate: u32,
    pub bits_per_sample: u16,
    pub data_offset: usize,
    pub data_size: usize,
}

/// The little-endian 16-bit value at `data[i..i + 2]`.
pub open spec fn le16(data: Seq<u8>, i: int) -> nat {
    (data[i] + 256 * data[i + 1]) as nat
}

/// The little-endian 32-bit value at `data[i..i + 4]`.
pub open spec fn le32(data: Seq<u8>, i: int) -> nat {
    (data[i] + 256 * data[i + 1] + 65536 * data[i + 2] + 16777216 * data[i + 3]) as nat
}

/// Whether the four bytes at `data[i..i + 4]` are `a b c d`.
pub open spec fn tag_at(data: Seq<u8>, i: int, a: u8, b: u8, c: u8, d: u8) -> bool {
    data[i] == a && data[i + 1] == b && data[i + 2] == c && data[i + 3] == d
}

/// Walks the RIFF chunk list from `offset` and returns the payload offset and
/// declared size of the first chunk tagged `data`.  The walk continues while
/// a whole chunk header fits before the last eight bytes.
pub open spec fn find_data_chunk(data: Seq<u8>, offset: nat) -> Option<(nat, nat)>
    decreases data.len() - offset,
{
    if offset + 8 < data.len() {
        let size = le32(data, offset + 4int);
        let next = (offset + 8 + size) as nat;
        if tag_at(data, offset as int, 0x64, 0x61, 0x74, 0x61) {
            Some(((offset + 8) as nat, size))
        } else if next + 8 < data.len() {
            find_data_chunk(data, next)
        } else {
            None
        }
    } else {
        None
    }
}

/// What `parse_wav_header` returns for `data`: `None` unless the file is at
/// least 44 bytes long, starts with `RIFF....WAVE` and holds a `data` chunk.
pub open spec fn wav_header(data: Seq<u8>) -> Option<WavInfo> {
    if data.len() < 44 || !tag_at(data, 0, 0x52, 0x49, 0x46, 0x46) || !tag_at(
        data,
        8,
        0x57,
        0x41,
        0x56,
        0x45,
    ) {
        None
    } else {
        match find_data_chunk(data, 12) {
            Some((off, size)) => Some(
                WavInfo {
                    num_channels: le16(data, 22) as u16,
                    sample_rate: le32(data, 24) as u32,
                    bits_per_sample: le16(data, 34) as u16,
                    data_offset: off as usize,
                    data_size: size as usize,
                },
            ),
            None => None,
        }
    }
}

proof fn lemma_find_data_chunk(data: Seq<u8>, offset: nat)
    ensures
        find_data_chunk(data, offset) matches Some((p, size)) ==> {
            &&& offset + 8 <= p < data.len()
            &&& tag_at(data, p - 8, 0x64, 0x61, 0x74, 0x61)
            &&& size == le32(data, p - 4)
        },
    decreases data.len() - offset,
{
    if offset + 8 < data.len() {
        let size = le32(data, offset + 4int);
        let next = (offset + 8 + size) as nat;
        if tag_at(data, offset as int, 0x64, 0x61, 0x74, 0x61) {
            let p = (offset + 8) as nat;
            assert(p - 8 == offset);
            assert(p - 4 == offset + 4);
        } else if next + 8 < data.len() {
            lemma_find_data_chunk(data, next);
        }
    }
}

/// What a parse of a WAV header gives: nothing for a file shorter than 44
/// bytes or without the `RIFF`/`WAVE` magic; otherwise, where it finds
/// one, the `data` chunk it names lies in the file, after its tag and size,
/// and the format fields are read at their fixed offsets.
pub proof fn lemma_wav_header_cases(data: Seq<u8>)
    requires
        data.len() <= usize::MAX,
    ensures
        data.len() < 44 ==> wav_header(data) is None,
        !tag_at(data, 0, 0x52, 0x49, 0x46, 0x46) ==> wav_header(data) is None,
        data.len() >= 44 && !tag_at(data, 8, 0x57, 0x41, 0x56, 0x45) ==> wav_header(data) is None,
        wav_header(data) matches Some(info) ==> {
            &&& 20 <= info.data_offset < data.len()
            &&& tag_at(data, info.data_offset - 8, 0x64, 0x61, 0x74, 0x61)
            &&& info.data_size == le32(data, info.data_offset - 4)
            &&& info.num_channels == le16(data, 22)
            &&& info.sample_rate == le32(data, 24)
            &&& info.bits_per_sample == le16(data, 34)
        },
{
    lemma_find_data_chunk(data, 12);
    if wav_header(data) is Some {
        assert(le16(data, 22) < 0x1_0000);
        assert(le32(data, 24) < 0x1_0000_0000);
        assert(le16(data, 34) < 0x1_0000);
        let (p, size) = find_data_chunk(data, 12)->0;
        assert(size < 0x1_0000_0000);
        assert(p < data.len());
        assert((p as usize) as nat == p);
        assert((size as usize) as nat == size);
    }
}

fn read_le16(data: &[u8], i: usize) -> (r: u16)
    requires
        i + 2 <= data@.len(),
    ensures
        r as nat == le16(data@, i as int),
{
    data[i] as u16 + (data[i + 1] as u16) * 256
}

fn read_le32(data: &[u8], i: usize) -> (r: u32)
    requires
        i + 4 <= data@.len(),
    ensures
        r as nat == le32(data@, i as int),
{
    data[i] as u32 + (data[i + 1] as u32) * 256 + (data[i + 2] as u32) * 65536 + (data[i
        + 3] as u32) * 16777216
}

/// Parse a WAV file, returning header info or `None` if it is not a valid WAV.
pub fn parse_wav_header(data: &[u8]) -> (r: Option<WavInfo>)
    ensures
        r == wav_header(data@),
        r matches Some(info) ==> info.data_offset < data@.len(),
{
    if data.len() < 44 {
        return None;
    }
    if !(data[0] == 0x52 && data[1] == 0x49 && data[2] == 0x46 && data[3] == 0x46) || !(data[8]
        == 0x57 && data[9] == 0x41 && data[10] == 0x56 && data[11] == 0x45) {
        return None;
    }
    let num_channels = read_le16(data, 22);
    let sample_rate = read_le32(data, 24);
    let bits_per_sample = read_le16(data, 34);

    // Find the "data" chunk.
    let mut offset: usize = 12;
    while offset < data.len() - 8
        invariant
            data@.len() >= 44,
            offset <= data@.len(),
            find_data_chunk(data@, offset as nat) == find_data_chunk(data@, 12),
            num_channels as nat == le16(data@, 22),
            sample_rate as nat == le32(data@, 24),
            bits_per_sample as nat == le16(data@, 34),
            tag_at(data@, 0, 0x52, 0x49, 0x46, 0x46),
            tag_at(data@, 8, 0x57, 0x41, 0x56, 0x45),
        decreases data@.len() - offset,
    {
        let chunk_size = read_le32(data, offset + 4);
        if data[offset] == 0x64 && data[offset + 1] == 0x61 && data[offset + 2] == 0x74 && data[offset
            + 3] == 0x61 {
            proof {
                assert(find_data_chunk(data@, offset as nat) == Some(
                    ((offset + 8) as nat, chunk_size as nat),
                ));
            }
            return Some(
                WavInfo {
                    num_channels,
                    sample_rate,
                    bits_per_sample,
                    data_offset: offset + 8,
                    data_size: chunk_size as usize,
                },
            );
        }
        let room = data.len() - offset - 8;
        if chunk_size as usize >= room {
            // The next chunk header would start at or past the end.
            proof {
                let next = (offset + 8 + chunk_size) as nat;
                assert(!(next + 8 < data@.len()));
                assert(find_data_chunk(data@, next) is None);
            }
            return None;
        }
        offset = offset + 8 + chunk_size as usize;
    }
    None
}

/// The bounds `(start, end)` of the PCM bytes that analysis reads: the
/// declared data chunk, cut at the end of the file.
pub fn pcm_bounds(info: &WavInfo, file_len: usize) -> (r: (usize, usize))
    requires
        info.data_offset <= file_len,
    ensures
        r.0 == info.data_offset,
        r.1 == info.data_offset + if info.data_size <= file_len - info.data_offset {
            info.data_size as int
        } else {
            file_len - info.data_offset
        },
        r.0 <= r.1 <= file_len,
{
    let avail = file_len - info.data_offset;
    let take = if info.data_size <= avail {
        info.data_size
    } else {
        avail
    };
    (info.data_offset, info.data_offset + take)
}

/// The number of characters of `s` that are not white space.
pub open spec fn non_ws_count(s: Seq<char>) -> nat
    decreases s.len(),
{
    if s.len() == 0 {
        0
    } else {
        non_ws_count(s.drop_last()) + if crate::text::is_ws(s.last()) {
            0nat
        } else {
            1nat
        }
    }
}

/// The number of characters of a transcript that are not white space.
pub fn count_speech_chars(transcript: &str) -> (r: usize)
    ensures
        r == non_ws_count(transcript@),
{
    let cs = crate::text::chars_of(transcript);
    let mut n: usize = 0;
    let mut i: usize = 0;
    while i < cs.len()
        invariant
            i <= cs@.len(),
            n <= i,
            n == non_ws_count(cs@.take(i as int)),
        decreases cs.len() - i,
    {
        assert(cs@.take(i + 1).drop_last() =~= cs@.take(i as int));
        if !crate::text::is_whitespace(cs[i]) {
            n = n + 1;
        }
        i = i + 1;
    }
    assert(cs@.take(i as int) =~= cs@);
    n
}

// ---------------------------------------------------------------------------
// Build audio_turn
// ---------------------------------------------------------------------------

/// The local acoustic measurements of one recording.
#[derive(Debug, Clone, Copy, PartialEq, Eq)]
pub struct RawAnalysis {
    pub speech_rate: SpeechRate,
    pub energy: EnergyLevel,
    pub pause_pattern: PausePattern,
}

/// The bit pattern of the `f64` value `0.6`: the confidence of a finished
/// analysis, the mean of the confidences of its three measurements (speech
/// rate 0.7, energy 0.6, pause pattern 0.5).
pub const ANALYSIS_CONFIDENCE_BITS: u64 = 0x3fe3_3333_3333_3333;

/// The bit pattern of the `f64` value `0.2`, the confidence of the
/// default analysis.
pub const DEFAULT_ANALYSIS_CONFIDENCE_BITS: u64 = 0x3fc9_9999_9999_999a;

/// The analysis used where the audio could not be analyzed.
pub open spec fn default_analysis() -> RawAnalysis {
    RawAnalysis {
        speech_rate: SpeechRate::Normal,
        energy: EnergyLevel::Medium,
        pause_pattern: PausePattern::Medium,
    }
}

/// Whether the provider returned any enriched field.
pub open spec fn has_enrichment(p: AudioUnderstandingResult) -> bool {
    p.summary is Some || p.intent is Some || p.emotion is Some || p.tone is Some
        || p.key_points is Some || p.non_verbal_signals is Some || p.language is Some
}

/// Whether `u` carries the provider's enriched fields.
pub open spec fn understanding_of(u: AudioUnderstanding, p: AudioUnderstandingResult) -> bool {
    &&& opt_view(u.summary) == opt_view(p.summary)
    &&& opt_view(u.intent) == opt_view(p.intent)
    &&& match u.emotion {
        Some(e) => emotion_view(p.emotion) == Some((e.primary@, e.confidence)),
        None => p.emotion is None,
    }
    &&& opt_strings_view(u.tone) == opt_strings_view(p.tone)
    &&& opt_strings_view(u.key_points) == opt_strings_view(p.key_points)
    &&& opt_strings_view(u.non_verbal_signals) == opt_strings_view(p.non_verbal_signals)
    &&& opt_view(u.language) == opt_view(p.language)
    &&& u.confidence == p.confidence
}

/// The `audio_turn` for a provider result and the local analysis (`None`
/// where it failed).
pub open spec fn audio_turn_of(
    t: AudioTurn,
    p: AudioUnderstandingResult,
    file_path: Seq<char>,
    analysis: Option<RawAnalysis>,
) -> bool {
    let a = match analysis {
        Some(a) => a,
        None => default_analysis(),
    };
    &&& t.transcript@ == p.transcript@
    &&& t.analysis == AcousticAnalysis {
        speech_rate: a.speech_rate,
        energy: a.energy,
        pause_pattern: a.pause_pattern,
    }
    &&& t.analysis_confidence == if analysis is Some {
        ANALYSIS_CONFIDENCE_BITS
    } else {
        DEFAULT_ANALYSIS_CONFIDENCE_BITS
    }
    &&& t.source@ == "file"@
    &&& t.audio_file@ == file_path
    &&& t.model@ == p.model@
    &&& t.provider@ == p.provider@
    &&& match t.audio_understanding {
        Some(u) => has_enrichment(p) && understanding_of(u, p),
        None => !has_enrichment(p),
    }
    &&& match t.warnings {
        Some(w) => p.warnings@.len() > 0 && crate::text::strings_view(w@)
            == crate::text::strings_view(p.warnings@),
        None => p.warnings@.len() == 0,
    }
}

/// An audio turn reports the transcript, the model and the provider of
/// the result it was built from, and the file it is about, whatever their
/// texts.
pub proof fn lemma_audio_turn_keeps_identity(
    t: AudioTurn,
    p: AudioUnderstandingResult,
    file_path: Seq<char>,
    analysis: Option<RawAnalysis>,
)
    requires
        audio_turn_of(t, p, file_path, analysis),
    ensures
        t.transcript@ == p.transcript@,
        t.model@ == p.model@,
        t.provider@ == p.provider@,
        t.audio_file@ == file_path,
{
}

/// Build the final `AudioTurn` by merging the provider's result with the
/// local acoustic analysis (or its defaults where the analysis failed).
pub fn build_audio_turn(
    provider_result: &AudioUnderstandingResult,
    file_path: &str,
    analysis: Option<RawAnalysis>,
) -> (t: AudioTurn)
    ensures
        audio_turn_of(t, *provider_result, file_path@, analysis),
        t.transcript@ == provider_result.transcript@,
        t.model@ == provider_result.model@,
        t.provider@ == provider_result.provider@,
        t.audio_file@ == file_path@,
{
    let (raw_analysis, confidence) = match analysis {
        Some(a) => (a, ANALYSIS_CONFIDENCE_BITS),
        None => (
            RawAnalysis {
                speech_rate: SpeechRate::Normal,
                energy: EnergyLevel::Medium,
                pause_pattern: PausePattern::Medium,
            },
            DEFAULT_ANALYSIS_CONFIDENCE_BITS,
        ),
    };
    let analysis = AcousticAnalysis {
        speech_rate: raw_analysis.speech_rate,
        energy: raw_analysis.energy,
        pause_pattern: raw_analysis.pause_pattern,
    };
    let p = provider_result;
    let has_enrichment = p.summary.is_some() || p.intent.is_some() || p.emotion.is_some()
        || p.tone.is_some() || p.key_points.is_some() || p.non_verbal_signals.is_some()
        || p.language.is_some();
    let audio_understanding = if has_enrichment {
        Some(
            AudioUnderstanding {
                summary: copy_opt(&p.summary),
                intent: copy_opt(&p.intent),
                emotion: match &p.emotion {
                    Some(e) => Some(
                        Emotion { primary: copy_str(e.primary.as_str()), confidence: e.confidence },
                    ),
                    None => None,
                },
                tone: copy_opt_strings(&p.tone),
                key_points: copy_opt_strings(&p.key_points),
                non_verbal_signals: copy_opt_strings(&p.non_verbal_signals),
                language: copy_opt(&p.language),
                confidence: p.confidence,
            },
        )
    } else {
        None
    };
    let warnings = if p.warnings.len() == 0 {
        None
    } else {
        Some(copy_strings(&p.warnings))
    };
    AudioTurn {
        transcript: copy_str(p.transcript.as_str()),
        analysis,
        analysis_confidence: confidence,
        source: copy_str("file"),
        audio_file: copy_str(file_path),
        model: copy_str(p.model.as_str()),
        provider: copy_str(p.provider.as_str()),
        audio_understanding,
        warnings,
    }
}

} // verus!
