//! Runtime path helpers.
//!
//! All persistent state (captures, TTS output, voice profile) lives under
//! `<CWD>/.voice-bridge/`.  Paths are Unix paths held as text.
use vstd::prelude::*;

use crate::text::{decimal, has_prefix, push_decimal, push_str, string_of};

verus! {

/// `base` joined with the relative component `c`, as `PathBuf::join` does
/// with `/` as separator.
pub open spec fn join(base: Seq<char>, c: Seq<char>) -> Seq<char> {
    if base.len() == 0 || base.last() == '/' {
        base + c
    } else {
        base + seq!['/'] + c
    }
}

/// A joined path starts with its base.
pub proof fn lemma_join_under(base: Seq<char>, c: Seq<char>)
    ensures
        has_prefix(join(base, c), base),
{
    assert(join(base, c).subrange(0, base.len() as int) =~= base);
}

fn push_join(out: &mut Vec<char>, c: &str)
    ensures
        final(out)@ == join(old(out)@, c@),
{
    if out.len() > 0 && out[out.len() - 1] != '/' {
        out.push('/');
    }
    push_str(out, c);
    assert(out@ =~= join(old(out)@, c@));
}

/// The runtime base directory for a working directory: `<cwd>/.voice-bridge`.
pub fn runtime_base_dir(cwd: &str) -> (r: String)
    ensures
        r@ == join(cwd@, ".voice-bridge"@),
{
    let mut v = crate::text::chars_of(cwd);
    push_join(&mut v, ".voice-bridge");
    string_of(&v)
}

/// The captures subdirectory of the base directory.
pub fn captures_dir(base_dir: &str) -> (r: String)
    ensures
        r@ == join(base_dir@, "captures"@),
{
    let mut v = crate::text::chars_of(base_dir);
    push_join(&mut v, "captures");
    string_of(&v)
}

/// The name of the audio file written for a timestamp: `<ms>.wav`.
pub open spec fn wav_name(timestamp_ms: nat) -> Seq<char> {
    decimal(timestamp_ms) + ".wav"@
}

/// The TTS output path for a given timestamp: `<base>/tts/<ms>.wav`.
pub fn tts_output_path(base_dir: &str, timestamp_ms: u128) -> (r: String)
    ensures
        r@ == join(join(base_dir@, "tts"@), wav_name(timestamp_ms as nat)),
{
    let mut v = crate::text::chars_of(base_dir);
    push_join(&mut v, "tts");
    let mut name: Vec<char> = Vec::new();
    push_decimal(&mut name, timestamp_ms);
    push_str(&mut name, ".wav");
    let name = string_of(&name);
    push_join(&mut v, name.as_str());
    string_of(&v)
}

/// The voice profile file path: `<base>/voice-profile.json`.
pub fn voice_profile_path(base_dir: &str) -> (r: String)
    ensures
        r@ == join(base_dir@, "voice-profile.json"@),
{
    let mut v = crate::text::chars_of(base_dir);
    push_join(&mut v, "voice-profile.json");
    string_of(&v)
}

/// Distinct timestamps give distinct TTS output paths.
pub proof fn lemma_tts_paths_distinct(base: Seq<char>, t1: nat, t2: nat)
    requires
        t1 != t2,
    ensures
        join(join(base, "tts"@), wav_name(t1)) != join(join(base, "tts"@), wav_name(t2)),
{
    let d = join(base, "tts"@);
    let p1 = join(d, wav_name(t1));
    let p2 = join(d, wav_name(t2));
    if p1 == p2 {
        if d.len() == 0 || d.last() == '/' {
            assert(p1 == d + wav_name(t1));
            assert(p1.skip(d.len() as int) =~= wav_name(t1));
            assert(p2.skip(d.len() as int) =~= wav_name(t2));
        } else {
            assert(p1 == d + seq!['/'] + wav_name(t1));
            assert(p1.skip(d.len() as int + 1) =~= wav_name(t1));
            assert(p2.skip(d.len() as int + 1) =~= wav_name(t2));
        }
        reveal_strlit(".wav");
        let w1 = wav_name(t1);
        let w2 = wav_name(t2);
        assert(w1.len() == w2.len());
        assert(w1.subrange(0, w1.len() - 4) =~= decimal(t1));
        assert(w2.subrange(0, w2.len() - 4) =~= decimal(t2));
        crate::text::lemma_decimal_injective(t1, t2);
    }
}

/// Every state path lies under the base directory.
pub proof fn lemma_state_paths_under_base(base: Seq<char>, timestamp_ms: nat)
    ensures
        has_prefix(join(base, "captures"@), base),
        has_prefix(join(base, "voice-profile.json"@), base),
        has_prefix(join(join(base, "tts"@), wav_name(timestamp_ms)), base),
{
    lemma_join_under(base, "captures"@);
    lemma_join_under(base, "voice-profile.json"@);
    lemma_join_under(base, "tts"@);
    let d = join(base, "tts"@);
    lemma_join_under(d, wav_name(timestamp_ms));
    let p = join(d, wav_name(timestamp_ms));
    assert(p.subrange(0, base.len() as int) =~= p.subrange(0, d.len() as int).subrange(
        0,
        base.len() as int,
    ));
}

} // verus!
