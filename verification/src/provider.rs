//! Qwen Omni audio understanding provider.
//!
//! Builds the request for DashScope's OpenAI-compatible endpoint, decides
//! when a failed request is retried, and turns the streamed reply into an
//! [`AudioUnderstandingResult`].
use vstd::prelude::*;

use crate::errors::HimdError;
use crate::json::{
    get_key, json_parse, json_text, opt_key, opt_number, opt_str, parse_json, push_item,
    push_member, str_of, Json, JsonV,
};
use crate::text::{
    chars_of, copy_str, lemma_strings_view_push, opt_strings_view, opt_view, string_of,
    strings_view,
};

verus! {

/// The name under which this provider reports its results.
pub open spec fn provider_name() -> Seq<char> {
    "qwen-omni"@
}

/// The bit pattern of the `f64` value `0.5`.
pub const HALF_BITS: u64 = 0x3fe0_0000_0000_0000;

// ---------------------------------------------------------------------------
// Result types
// ---------------------------------------------------------------------------

/// Emotion sub-result.
#[derive(Debug)]
pub struct EmotionResult {
    pub primary: String,
    /// The confidence as the bit pattern of an `f64`, where one was given.
    pub confidence: Option<u64>,
}

/// Result of audio understanding (richer than the MCP response type).
#[derive(Debug)]
pub struct AudioUnderstandingResult {
    pub transcript: String,
    pub provider: String,
    pub model: String,
    pub summary: Option<String>,
    pub intent: Option<String>,
    pub emotion: Option<EmotionResult>,
    pub tone: Option<Vec<String>>,
    pub key_points: Option<Vec<String>>,
    pub non_verbal_signals: Option<Vec<String>>,
    pub language: Option<String>,
    /// The overall confidence as the bit pattern of an `f64`.
    pub confidence: u64,
    pub raw_text: Option<String>,
    pub warnings: Vec<String>,
}

// ---------------------------------------------------------------------------
// Configuration
// ---------------------------------------------------------------------------

/// The default endpoint base.
pub open spec fn default_base_url() -> Seq<char> {
    "https://dashscope.aliyuncs.com/compatible-mode/v1"@
}

/// The default audio model.
pub open spec fn default_audio_model() -> Seq<char> {
    "qwen3-omni-flash"@
}

/// The API key, given the value of `DASHSCOPE_API_KEY` (`None` where it is
/// unset or not Unicode).
pub fn api_key(env_value: Option<String>) -> (r: Result<String, HimdError>)
    ensures
        match env_value {
            Some(v) => r matches Ok(k) && k == v,
            None => r matches Err(HimdError::Config(m))
                && m@ == "DASHSCOPE_API_KEY environment variable is not set."@,
        },
{
    match env_value {
        Some(v) => Ok(v),
        None => Err(
            HimdError::Config(copy_str("DASHSCOPE_API_KEY environment variable is not set.")),
        ),
    }
}

/// The endpoint base, given the value of `DASHSCOPE_BASE_URL`.
pub fn base_url(env_value: Option<String>) -> (r: String)
    ensures
        match env_value {
            Some(v) => r == v,
            None => r@ == default_base_url(),
        },
{
    match env_value {
        Some(v) => v,
        None => copy_str("https://dashscope.aliyuncs.com/compatible-mode/v1"),
    }
}

/// The audio model, given the value of `AUDIO_MODEL`.
pub fn audio_model(env_value: Option<String>) -> (r: String)
    ensures
        match env_value {
            Some(v) => r == v,
            None => r@ == default_audio_model(),
        },
{
    match env_value {
        Some(v) => v,
        None => copy_str("qwen3-omni-flash"),
    }
}

// ---------------------------------------------------------------------------
// Result construction
// ---------------------------------------------------------------------------

/// Whether `r` is the empty result for `model`: no transcript, no enriched
/// fields, confidence `0.0`, no warnings.
pub open spec fn is_empty_result(r: AudioUnderstandingResult, model: Seq<char>) -> bool {
    &&& r.transcript@ == Seq::<char>::empty()
    &&& r.provider@ == provider_name()
    &&& r.model@ == model
    &&& r.summary is None
    &&& r.intent is None
    &&& r.emotion is None
    &&& r.tone is None
    &&& r.key_points is None
    &&& r.non_verbal_signals is None
    &&& r.language is None
    &&& r.confidence == 0
    &&& r.raw_text is None
    &&& r.warnings@.len() == 0
}

/// Create an empty result with default values.
pub fn create_empty_result(model: String) -> (r: AudioUnderstandingResult)
    ensures
        is_empty_result(r, model@),
        r.model == model,
{
    AudioUnderstandingResult {
        transcript: String::new(),
        provider: copy_str("qwen-omni"),
        model,
        summary: None,
        intent: None,
        emotion: None,
        tone: None,
        key_points: None,
        non_verbal_signals: None,
        language: None,
        confidence: 0,
        raw_text: None,
        warnings: Vec::new(),
    }
}

/// The texts of the string elements of `items`, in order (others skipped).
pub open spec fn string_items(items: Seq<Json>) -> Seq<Seq<char>>
    decreases items.len(),
{
    if items.len() == 0 {
        Seq::empty()
    } else {
        string_items(items.drop_last()) + match str_of(items.last()) {
            Some(s) => seq![s],
            None => Seq::empty(),
        }
    }
}

/// A field that holds a list of strings: the string elements of an array,
/// `None` where the field is missing or not an array.
pub open spec fn string_list(value: Option<Json>) -> Option<Seq<Seq<char>>> {
    match value {
        Some(Json::Array(v)) => Some(string_items(v@)),
        _ => None,
    }
}

/// The emotion read from the `emotion` field: an object gives its `primary`
/// (`"unknown"` if missing) and numeric `confidence`; a string gives itself.
pub open spec fn emotion_of(value: Option<Json>) -> Option<(Seq<char>, Option<u64>)> {
    match value {
        Some(e) => if e is Object {
            Some(
                (
                    match opt_str(get_key(e, "primary"@)) {
                        Some(p) => p,
                        None => "unknown"@,
                    },
                    opt_number(get_key(e, "confidence"@)),
                ),
            )
        } else {
            match str_of(e) {
                Some(s) => Some((s, None)),
                None => None,
            }
        },
        None => None,
    }
}

/// The view of an optional emotion.
pub open spec fn emotion_view(e: Option<EmotionResult>) -> Option<(Seq<char>, Option<u64>)> {
    match e {
        Some(x) => Some((x.primary@, x.confidence)),
        None => None,
    }
}

/// What `normalize_result` makes of a parsed reply.
pub open spec fn normalized(
    r: AudioUnderstandingResult,
    parsed: Json,
    raw_text: Seq<char>,
    model: Seq<char>,
) -> bool {
    &&& r.transcript@ == match opt_str(get_key(parsed, "transcript"@)) {
        Some(t) => t,
        None => Seq::<char>::empty(),
    }
    &&& r.provider@ == provider_name()
    &&& r.model@ == model
    &&& opt_view(r.raw_text) == Some(raw_text)
    &&& opt_view(r.summary) == opt_str(get_key(parsed, "summary"@))
    &&& opt_view(r.intent) == opt_str(get_key(parsed, "intent"@))
    &&& emotion_view(r.emotion) == emotion_of(get_key(parsed, "emotion"@))
    &&& opt_strings_view(r.tone) == string_list(get_key(parsed, "tone"@))
    &&& opt_strings_view(r.key_points) == string_list(get_key(parsed, "key_points"@))
    &&& opt_strings_view(r.non_verbal_signals) == string_list(
        get_key(parsed, "non_verbal_signals"@),
    )
    &&& opt_view(r.language) == opt_str(get_key(parsed, "language"@))
    &&& r.confidence == match opt_number(get_key(parsed, "confidence"@)) {
        Some(c) => c,
        None => HALF_BITS,
    }
    &&& r.warnings@.len() == 0
}

/// The text of a string field, copied.
fn text_field(parsed: &Json, key: &str) -> (r: Option<String>)
    ensures
        opt_view(r) == opt_str(get_key(*parsed, key@)),
{
    match parsed.get(key) {
        Some(v) => match v.as_str() {
            Some(s) => Some(copy_str(s.as_str())),
            None => None,
        },
        None => None,
    }
}

/// The string elements of a list field, copied.
fn list_field(parsed: &Json, key: &str) -> (r: Option<Vec<String>>)
    ensures
        opt_strings_view(r) == string_list(get_key(*parsed, key@)),
{
    match parsed.get(key) {
        Some(v) => match v.as_array() {
            Some(items) => {
                let mut out: Vec<String> = Vec::new();
                let mut i: usize = 0;
                while i < items.len()
                    invariant
                        i <= items@.len(),
                        strings_view(out@) == string_items(items@.take(i as int)),
                    decreases items.len() - i,
                {
                    assert(items@.take(i + 1).drop_last() =~= items@.take(i as int));
                    match items[i].as_str() {
                        Some(s) => {
                            let c = copy_str(s.as_str());
                            proof {
                                lemma_strings_view_push(out@, c);
                            }
                            out.push(c);
                        },
                        None => {},
                    }
                    proof {
                        assert(strings_view(out@) =~= string_items(items@.take(i + 1)));
                    }
                    i = i + 1;
                }
                assert(items@.take(i as int) =~= items@);
                Some(out)
            },
            None => None,
        },
        None => None,
    }
}

/// The emotion field, read as [`emotion_of`] says.
fn emotion_field(parsed: &Json) -> (r: Option<EmotionResult>)
    ensures
        emotion_view(r) == emotion_of(get_key(*parsed, "emotion"@)),
{
    match parsed.get("emotion") {
        Some(e) => if e.is_object() {
            let primary = match text_field(e, "primary") {
                Some(p) => p,
                None => copy_str("unknown"),
            };
            let confidence = match e.get("confidence") {
                Some(c) => c.as_number(),
                None => None,
            };
            Some(EmotionResult { primary, confidence })
        } else {
            match e.as_str() {
                Some(s) => Some(EmotionResult { primary: copy_str(s.as_str()), confidence: None }),
                None => None,
            }
        },
        None => None,
    }
}

/// Normalize a parsed reply into the standard result schema.
pub fn normalize_result(parsed: &Json, raw_text: &str, model: String) -> (r:
    AudioUnderstandingResult)
    ensures
        normalized(r, *parsed, raw_text@, model@),
{
    let mut result = create_empty_result(model);
    result.transcript = match text_field(parsed, "transcript") {
        Some(t) => t,
        None => String::new(),
    };
    result.raw_text = Some(copy_str(raw_text));
    result.summary = text_field(parsed, "summary");
    result.intent = text_field(parsed, "intent");
    result.emotion = emotion_field(parsed);
    result.tone = list_field(parsed, "tone");
    result.key_points = list_field(parsed, "key_points");
    result.non_verbal_signals = list_field(parsed, "non_verbal_signals");
    result.language = text_field(parsed, "language");
    result.confidence = match parsed.get("confidence") {
        Some(c) => match c.as_number() {
            Some(b) => b,
            None => HALF_BITS,
        },
        None => HALF_BITS,
    };
    result
}

// ---------------------------------------------------------------------------
// Reply parsing with fallback
// ---------------------------------------------------------------------------

/// Whether `c` is one of the blanks skipped before a closing bracket.
pub open spec fn is_blank(c: char) -> bool {
    c == ' ' || c == '\n' || c == '\r' || c == '\t'
}

/// The first index at or after `j` that does not hold a blank (or `s.len()`).
pub open spec fn skip_blanks(s: Seq<char>, j: int) -> int
    decreases s.len() - j,
{
    if 0 <= j < s.len() && is_blank(s[j]) {
        skip_blanks(s, j + 1)
    } else {
        j
    }
}

/// Whether `s[i]` is a comma whose next non-blank character closes an
/// object or an array.
pub open spec fn is_trailing_comma(s: Seq<char>, i: int) -> bool {
    &&& s[i] == ','
    &&& i + 1 < s.len()
    &&& {
        let j = skip_blanks(s, i + 1);
        j < s.len() && (s[j] == '}' || s[j] == ']')
    }
}

/// The first `n` characters of `s` with trailing commas left out.
pub open spec fn kept_prefix(s: Seq<char>, n: int) -> Seq<char>
    decreases n,
{
    if n <= 0 {
        Seq::empty()
    } else if is_trailing_comma(s, n - 1) {
        kept_prefix(s, n - 1)
    } else {
        kept_prefix(s, n - 1).push(s[n - 1])
    }
}

/// `s` without the commas that directly precede a closing `}` or `]`
/// (blanks between them allowed).
pub open spec fn strip_trailing_commas(s: Seq<char>) -> Seq<char> {
    kept_prefix(s, s.len() as int)
}

/// Remove trailing commas before `}` or `]`.
pub fn regex_replace_trailing_commas(s: &str) -> (r: String)
    ensures
        r@ == strip_trailing_commas(s@),
{
    let chars = chars_of(s);
    let r = strip_commas_chars(&chars);
    string_of(&r)
}

fn strip_commas_chars(chars: &Vec<char>) -> (r: Vec<char>)
    ensures
        r@ == strip_trailing_commas(chars@),
{
    let mut result: Vec<char> = Vec::new();
    let mut i: usize = 0;
    while i < chars.len()
        invariant
            i <= chars@.len(),
            result@ == kept_prefix(chars@, i as int),
        decreases chars.len() - i,
    {
        let mut skip = false;
        if chars[i] == ',' && i + 1 < chars.len() {
            let mut j = i + 1;
            while j < chars.len() && (chars[j] == ' ' || chars[j] == '\n' || chars[j] == '\r'
                || chars[j] == '\t')
                invariant
                    i + 1 <= j <= chars@.len(),
                    skip_blanks(chars@, j as int) == skip_blanks(chars@, i + 1),
                decreases chars.len() - j,
            {
                j = j + 1;
            }
            if j < chars.len() && (chars[j] == '}' || chars[j] == ']') {
                skip = true;
            }
        }
        if !skip {
            result.push(chars[i]);
        }
        i = i + 1;
    }
    result
}

/// The opening fence of a markdown code block.
pub open spec fn fence() -> Seq<char> {
    seq!['`', '`', '`']
}

/// `s` with every trailing repetition of `p` removed (`trim_end_matches`).
pub open spec fn strip_suffix_all(s: Seq<char>, p: Seq<char>) -> Seq<char>
    decreases s.len(),
{
    if p.len() > 0 && crate::text::has_suffix(s, p) {
        strip_suffix_all(s.subrange(0, s.len() - p.len()), p)
    } else {
        s
    }
}

/// A trimmed reply with a surrounding markdown code fence removed.
pub open spec fn strip_fences(t: Seq<char>) -> Seq<char> {
    if crate::text::has_prefix(t, fence()) {
        let a = if crate::text::has_prefix(t, seq!['`', '`', '`', 'j', 's', 'o', 'n', '\n']) {
            t.skip(8)
        } else if crate::text::has_prefix(t, seq!['`', '`', '`', '\n']) {
            t.skip(4)
        } else {
            t.skip(3)
        };
        if crate::text::has_suffix(a, fence()) {
            strip_suffix_all(a, fence())
        } else {
            a
        }
    } else {
        t
    }
}

/// The reply text that the parser works on: trimmed, unfenced, trimmed again.
pub open spec fn cleaned_reply(text: Seq<char>) -> Seq<char> {
    crate::text::trim(strip_fences(crate::text::trim(text)))
}

/// The `}` characters that close the objects left open in `s`.
pub open spec fn missing_closers(s: Seq<char>) -> Seq<char> {
    let opens = crate::text::count_char(s, '{');
    let closes = crate::text::count_char(s, '}');
    if opens > closes {
        Seq::new((opens - closes) as nat, |i: int| '}')
    } else {
        Seq::empty()
    }
}

proof fn lemma_count_concat(a: Seq<char>, b: Seq<char>, c: char)
    ensures
        crate::text::count_char(a + b, c) == crate::text::count_char(a, c)
            + crate::text::count_char(b, c),
    decreases b.len(),
{
    if b.len() > 0 {
        assert((a + b).drop_last() =~= a + b.drop_last());
        lemma_count_concat(a, b.drop_last(), c);
    } else {
        assert(a + b =~= a);
    }
}

proof fn lemma_count_repeated(n: nat, ch: char, c: char)
    ensures
        crate::text::count_char(Seq::new(n, |i: int| ch), c) == if ch == c {
            n
        } else {
            0
        },
    decreases n,
{
    if n > 0 {
        assert(Seq::new(n, |i: int| ch).drop_last() =~= Seq::new((n - 1) as nat, |i: int| ch));
        lemma_count_repeated((n - 1) as nat, ch, c);
    }
}

/// The repair closes every object left open, and does nothing else to the
/// text: it keeps the reply as it is and appends only `}`, as many as make
/// the closing braces as many as the opening ones (none where they already
/// are at least as many).
pub proof fn lemma_repair_closes_every_object(c: Seq<char>)
    ensures
        ({
            let r = c + missing_closers(c);
            let opens = crate::text::count_char(c, '{');
            let closes = crate::text::count_char(c, '}');
            &&& r.subrange(0, c.len() as int) == c
            &&& forall|i: int| c.len() <= i < r.len() ==> r[i] == '}'
            &&& crate::text::count_char(r, '{') == opens
            &&& crate::text::count_char(r, '}') == if opens > closes {
                opens
            } else {
                closes
            }
        }),
{
    let m = missing_closers(c);
    let r = c + m;
    assert(r.subrange(0, c.len() as int) =~= c);
    lemma_count_concat(c, m, '{');
    lemma_count_concat(c, m, '}');
    let opens = crate::text::count_char(c, '{');
    let closes = crate::text::count_char(c, '}');
    if opens > closes {
        lemma_count_repeated((opens - closes) as nat, '}', '{');
        lemma_count_repeated((opens - closes) as nat, '}', '}');
    }
}

/// `s` with its open objects closed and its trailing commas removed.
pub open spec fn repaired(s: Seq<char>) -> Seq<char> {
    strip_trailing_commas(s + missing_closers(s))
}

/// The text between the first `{` and the last `}` of `s`, both included,
/// where the first comes before the last.
pub open spec fn braced_span(s: Seq<char>) -> Option<Seq<char>> {
    match (crate::text::first_index(s, '{'), crate::text::last_index(s, '}')) {
        (Some(a), Some(b)) => if b > a {
            Some(s.subrange(a, b + 1))
        } else {
            None
        },
        _ => None,
    }
}

/// What `parse_json_response` returns for `text`: the JSON value of the
/// cleaned reply, else of its braced span, else of its repaired form.
pub open spec fn json_response(text: Seq<char>) -> Option<Json> {
    let c = cleaned_reply(text);
    if crate::text::trim(text).len() == 0 {
        None
    } else if json_parse(c) is Some {
        json_parse(c)
    } else {
        let span = match braced_span(c) {
            Some(t) => json_parse(t),
            None => None,
        };
        if span is Some {
            span
        } else {
            json_parse(repaired(c))
        }
    }
}

/// An object embedded in text that has no `{` before it and no `}` after
/// it is the braced span of the whole.
pub proof fn lemma_braced_span_embedded(a: Seq<char>, o: Seq<char>, b: Seq<char>)
    requires
        o.len() >= 2,
        o[0] == '{',
        o.last() == '}',
        forall|i: int| 0 <= i < a.len() ==> a[i] != '{',
        forall|i: int| 0 <= i < b.len() ==> b[i] != '}',
    ensures
        braced_span(a + o + b) == Some(o),
{
    let s = a + o + b;
    let fi = a.len() as int;
    let li = a.len() + o.len() - 1;
    assert(s[fi] == '{');
    assert(s[li] == '}');
    assert forall|k: int| 0 <= k < fi implies s[k] != '{' by {
        assert(s[k] == a[k]);
    }
    assert forall|k: int| li < k < s.len() implies s[k] != '}' by {
        assert(s[k] == b[k - a.len() - o.len()]);
    }
    let f = crate::text::first_index(s, '{');
    let l = crate::text::last_index(s, '}');
    assert(f is Some);
    let x = f->0;
    assert(s[x] == '{' && forall|k: int| 0 <= k < x ==> s[k] != '{');
    if x < fi {
        assert(s[x] == a[x]);
    }
    if x > fi {
        assert(s[fi] != '{');
    }
    assert(x == fi);
    assert(l is Some);
    let y = l->0;
    assert(s[y] == '}' && forall|k: int| y < k < s.len() ==> s[k] != '}');
    if y > li {
        assert(s[y] == b[y - a.len() - o.len()]);
    }
    if y < li {
        assert(s[li] != '}');
    }
    assert(y == li);
    assert(s.subrange(fi, li + 1) =~= o);
}

/// How a reply is read: blank text gives nothing; text that parses as it
/// stands (once trimmed and unfenced) gives its parse; otherwise an object
/// embedded in text without other braces around it gives the object's parse.
pub proof fn lemma_json_response_cases(text: Seq<char>)
    ensures
        crate::text::trim(text).len() == 0 ==> json_response(text) is None,
        crate::text::trim(text).len() > 0 && json_parse(cleaned_reply(text)) is Some
            ==> json_response(text) == json_parse(cleaned_reply(text)),
        crate::text::trim(text).len() > 0 && json_parse(cleaned_reply(text)) is None && (
        braced_span(cleaned_reply(text)) matches Some(t) && json_parse(t) is Some)
            ==> json_response(text) == json_parse(braced_span(cleaned_reply(text))->0),
{
}

/// An unfenced reply with no white space around it, made of a JSON object
/// with text before it that has no `{` and text after it that has no `}`,
/// reads as the object, when the whole is not JSON itself.
pub proof fn lemma_json_response_embedded(a: Seq<char>, o: Seq<char>, b: Seq<char>)
    requires
        o.len() >= 2,
        o[0] == '{',
        o.last() == '}',
        forall|i: int| 0 <= i < a.len() ==> a[i] != '{',
        forall|i: int| 0 <= i < b.len() ==> b[i] != '}',
        !crate::text::is_ws((a + o + b)[0]),
        !crate::text::is_ws((a + o + b).last()),
        !crate::text::has_prefix(a + o + b, fence()),
        json_parse(a + o + b) is None,
        json_parse(o) is Some,
    ensures
        json_response(a + o + b) == json_parse(o),
{
    let s = a + o + b;
    assert(crate::text::trim_start(s) == s);
    assert(crate::text::trim_end(s) == s);
    assert(strip_fences(s) == s);
    assert(cleaned_reply(s) == s);
    lemma_braced_span_embedded(a, o, b);
}

/// `strip_suffix_all` on characters.
fn strip_fence_suffixes(a: &Vec<char>, f: &Vec<char>) -> (r: Vec<char>)
    requires
        f@ == fence(),
    ensures
        r@ == strip_suffix_all(a@, f@),
{
    let mut end = a.len();
    assert(a@.subrange(0, end as int) =~= a@);
    while end >= 3 && a[end - 3] == '`' && a[end - 2] == '`' && a[end - 1] == '`'
        invariant
            end <= a@.len(),
            f@ == fence(),
            strip_suffix_all(a@, f@) == strip_suffix_all(a@.subrange(0, end as int), f@),
        decreases end,
    {
        proof {
            let t = a@.subrange(0, end as int);
            assert(t.subrange(t.len() - 3, t.len() as int) =~= fence());
            assert(t.subrange(0, t.len() - 3) =~= a@.subrange(0, end - 3));
        }
        end = end - 3;
    }
    proof {
        let t = a@.subrange(0, end as int);
        if end >= 3 {
            assert(t.subrange(t.len() - 3, t.len() as int)[0] == a@[end - 3]);
            assert(t.subrange(t.len() - 3, t.len() as int)[1] == a@[end - 2]);
            assert(t.subrange(t.len() - 3, t.len() as int)[2] == a@[end - 1]);
        }
        assert(!crate::text::has_suffix(t, f@));
    }
    crate::text::slice_chars(a, 0, end)
}

/// `strip_fences` on characters.
fn strip_fences_chars(t: &Vec<char>) -> (r: Vec<char>)
    ensures
        r@ == strip_fences(t@),
{
    let f: Vec<char> = vec!['`', '`', '`'];
    let fj: Vec<char> = vec!['`', '`', '`', 'j', 's', 'o', 'n', '\n'];
    let fn_: Vec<char> = vec!['`', '`', '`', '\n'];
    assert(f@ =~= fence());
    if !crate::text::starts_with(t, &f) {
        return crate::text::slice_chars(t, 0, t.len());
    }
    let a = if crate::text::starts_with(t, &fj) {
        crate::text::slice_chars(t, 8, t.len())
    } else if crate::text::starts_with(t, &fn_) {
        crate::text::slice_chars(t, 4, t.len())
    } else {
        crate::text::slice_chars(t, 3, t.len())
    };
    if crate::text::ends_with(&a, &f) {
        strip_fence_suffixes(&a, &f)
    } else {
        a
    }
}

/// `missing_closers(s)` appended to a copy of `s`.
fn close_open_objects(s: &Vec<char>) -> (r: Vec<char>)
    ensures
        r@ == s@ + missing_closers(s@),
{
    let opens = crate::text::count_occurrences(s, '{');
    let closes = crate::text::count_occurrences(s, '}');
    let mut r = crate::text::slice_chars(s, 0, s.len());
    if opens > closes {
        let n = opens - closes;
        let mut k: usize = 0;
        while k < n
            invariant
                k <= n,
                r@ == s@ + Seq::new(k as nat, |i: int| '}'),
            decreases n - k,
        {
            r.push('}');
            k = k + 1;
            assert(r@ =~= s@ + Seq::new(k as nat, |i: int| '}'));
        }
    } else {
        assert(r@ =~= s@ + Seq::<char>::empty());
    }
    r
}

/// The parse of the braced span of `cleaned`, if it has one.
fn parse_braced_span(cleaned: &Vec<char>) -> (r: Option<Json>)
    ensures
        r == match braced_span(cleaned@) {
            Some(t) => json_parse(t),
            None => None,
        },
{
    if let Some(start) = crate::text::find_char(cleaned, '{') {
        if let Some(end) = crate::text::rfind_char(cleaned, '}') {
            if end > start {
                assert(end < cleaned.len());
                let span = crate::text::slice_chars(cleaned, start, end + 1);
                return parse_json(string_of(&span).as_str());
            }
        }
    }
    None
}

/// Attempt to parse a JSON reply with progressive fallback: the cleaned
/// text, then the span from its first `{` to its last `}`, then the text
/// with open objects closed and trailing commas removed.
pub fn parse_json_response(text: &str) -> (r: Option<Json>)
    ensures
        r == json_response(text@),
{
    let chars = chars_of(text);
    let t = crate::text::trim_chars(&chars);
    if t.len() == 0 {
        return None;
    }
    let unfenced = strip_fences_chars(&t);
    let cleaned = crate::text::trim_chars(&unfenced);
    assert(cleaned@ == cleaned_reply(text@));

    // 1. Direct parse
    let direct = parse_json(string_of(&cleaned).as_str());
    if direct.is_some() {
        return direct;
    }

    // 2. Extract the JSON object from surrounding text
    let inner = parse_braced_span(&cleaned);
    if inner.is_some() {
        return inner;
    }

    // 3. Repair: close open objects, drop trailing commas
    let closed = close_open_objects(&cleaned);
    let fixed = strip_commas_chars(&closed);
    assert(fixed@ == repaired(cleaned@));
    parse_json(string_of(&fixed).as_str())
}

// ---------------------------------------------------------------------------
// SSE stream parsing
// ---------------------------------------------------------------------------

/// The index of the line feed that ends the line starting at `j` (or
/// `s.len()` for the last line).
pub open spec fn line_end(s: Seq<char>, j: int) -> int
    decreases s.len() - j,
{
    if 0 <= j < s.len() && s[j] != '\n' {
        line_end(s, j + 1)
    } else {
        j
    }
}

/// A line ends at or after its start, at a line feed or at the end.
pub proof fn lemma_line_end(s: Seq<char>, j: int)
    requires
        0 <= j <= s.len(),
    ensures
        j <= line_end(s, j) <= s.len(),
        line_end(s, j) < s.len() ==> s[line_end(s, j)] == '\n',
    decreases s.len() - j,
{
    if j < s.len() && s[j] != '\n' {
        lemma_line_end(s, j + 1);
    }
}

/// The `data: ` prefix of an SSE data line.
pub open spec fn data_prefix() -> Seq<char> {
    seq!['d', 'a', 't', 'a', ':', ' ']
}

/// The payload that ends an SSE stream.
pub open spec fn done_marker() -> Seq<char> {
    seq!['[', 'D', 'O', 'N', 'E', ']']
}

/// The text of `choices[0].delta.content` in a streamed chunk.
pub open spec fn delta_content(v: Json) -> Option<Seq<char>> {
    opt_str(
        opt_key(
            opt_key(crate::json::opt_index(get_key(v, "choices"@), 0), "delta"@),
            "content"@,
        ),
    )
}

/// The text that one line of an SSE body contributes: the delta content
/// of a `data:` line that holds JSON, nothing otherwise.
pub open spec fn line_text(line: Seq<char>) -> Seq<char> {
    let l = crate::text::trim(line);
    if crate::text::has_prefix(l, data_prefix()) {
        let d = crate::text::trim(l.skip(6));
        if d == done_marker() {
            Seq::empty()
        } else {
            match json_parse(d) {
                Some(v) => match delta_content(v) {
                    Some(c) => c,
                    None => Seq::empty(),
                },
                None => Seq::empty(),
            }
        }
    } else {
        Seq::empty()
    }
}

/// The text contributed by the lines of `s` from index `start` on.
pub open spec fn sse_from(s: Seq<char>, start: int) -> Seq<char>
    decreases s.len() - start,
{
    if start < 0 || start > s.len() {
        Seq::empty()
    } else {
        let e = line_end(s, start);
        proof {
            lemma_line_end(s, start);
        }
        line_text(s.subrange(start, e)) + if e < s.len() {
            sse_from(s, e + 1)
        } else {
            Seq::empty()
        }
    }
}

/// The content accumulated from an SSE body, line by line.
pub open spec fn sse_text(s: Seq<char>) -> Seq<char> {
    sse_from(s, 0)
}

proof fn lemma_line_end_prefix(a: Seq<char>, b: Seq<char>, j: int)
    requires
        0 <= j <= a.len(),
    ensures
        line_end(a + seq!['\n'] + b, j) == line_end(a, j),
    decreases a.len() - j,
{
    let s = a + seq!['\n'] + b;
    if j < a.len() {
        assert(s[j] == a[j]);
        if a[j] != '\n' {
            lemma_line_end_prefix(a, b, j + 1);
        }
    } else {
        assert(s[j] == '\n');
    }
}

proof fn lemma_line_end_shift(p: Seq<char>, b: Seq<char>, k: int)
    requires
        0 <= k <= b.len(),
    ensures
        line_end(p + b, p.len() + k) == p.len() + line_end(b, k),
    decreases b.len() - k,
{
    let s = p + b;
    if k < b.len() {
        assert(s[p.len() + k] == b[k]);
        if b[k] != '\n' {
            lemma_line_end_shift(p, b, k + 1);
        }
    }
}

proof fn lemma_sse_from_shift(p: Seq<char>, b: Seq<char>, k: int)
    requires
        0 <= k <= b.len(),
    ensures
        sse_from(p + b, p.len() + k) == sse_from(b, k),
    decreases b.len() - k,
{
    let s = p + b;
    lemma_line_end_shift(p, b, k);
    lemma_line_end(b, k);
    let e = line_end(b, k);
    assert(s.subrange(p.len() + k, p.len() + e) =~= b.subrange(k, e));
    if e < b.len() {
        lemma_sse_from_shift(p, b, e + 1);
        assert(p.len() + e + 1 == p.len() + (e + 1));
    }
}

proof fn lemma_sse_from_prefix(a: Seq<char>, b: Seq<char>, j: int)
    requires
        0 <= j <= a.len(),
    ensures
        sse_from(a + seq!['\n'] + b, j) == sse_from(a, j) + sse_text(b),
    decreases a.len() - j,
{
    let s = a + seq!['\n'] + b;
    let p = a + seq!['\n'];
    assert(s =~= p + b);
    lemma_line_end_prefix(a, b, j);
    lemma_line_end(a, j);
    let e = line_end(a, j);
    let lt = line_text(a.subrange(j, e));
    assert(s.subrange(j, e) =~= a.subrange(j, e));
    if e < a.len() {
        lemma_sse_from_prefix(a, b, e + 1);
        assert(sse_from(s, j) == lt + sse_from(s, e + 1));
        assert(sse_from(a, j) == lt + sse_from(a, e + 1));
        assert(lt + (sse_from(a, e + 1) + sse_text(b)) =~= (lt + sse_from(a, e + 1)) + sse_text(
            b,
        ));
    } else {
        lemma_sse_from_shift(p, b, 0);
        assert(p.len() + 0 == e + 1);
        assert(sse_from(s, j) == lt + sse_from(s, e + 1));
        assert(sse_from(a, j) == lt + Seq::<char>::empty());
        assert(lt + Seq::<char>::empty() =~= lt);
    }
}

/// The content of an SSE body is the content of its lines taken in turn:
/// splitting the body at a line feed splits the text there.
pub proof fn lemma_sse_text_concat(a: Seq<char>, b: Seq<char>)
    ensures
        sse_text(a + seq!['\n'] + b) == sse_text(a) + sse_text(b),
{
    lemma_sse_from_prefix(a, b, 0);
}

/// The delta content of a streamed chunk.
fn chunk_content(v: &Json) -> (r: Option<&String>)
    ensures
        match r {
            Some(c) => delta_content(*v) == Some(c@),
            None => delta_content(*v) is None,
        },
{
    let choices = match v.get("choices") {
        Some(c) => c,
        None => return None,
    };
    let first = match choices.at(0) {
        Some(c) => c,
        None => return None,
    };
    let delta = match first.get("delta") {
        Some(d) => d,
        None => return None,
    };
    match delta.get("content") {
        Some(c) => c.as_str(),
        None => None,
    }
}

/// Appends the text of one SSE line to `out`.
fn push_line_text(out: &mut Vec<char>, line: &Vec<char>)
    ensures
        final(out)@ == old(out)@ + line_text(line@),
{
    let l = crate::text::trim_chars(line);
    let prefix: Vec<char> = vec!['d', 'a', 't', 'a', ':', ' '];
    assert(prefix@ =~= data_prefix());
    if !crate::text::starts_with(&l, &prefix) {
        assert(old(out)@ + Seq::<char>::empty() =~= old(out)@);
        return ;
    }
    let rest = crate::text::slice_chars(&l, 6, l.len());
    assert(rest@ =~= l@.skip(6));
    let d = crate::text::trim_chars(&rest);
    let done: Vec<char> = vec!['[', 'D', 'O', 'N', 'E', ']'];
    assert(done@ =~= done_marker());
    if crate::text::chars_eq(&d, &done) {
        assert(old(out)@ + Seq::<char>::empty() =~= old(out)@);
        return ;
    }
    match parse_json(string_of(&d).as_str()) {
        Some(v) => match chunk_content(&v) {
            Some(c) => crate::text::push_str(out, c.as_str()),
            None => {
                assert(old(out)@ + Seq::<char>::empty() =~= old(out)@);
            },
        },
        None => {
            assert(old(out)@ + Seq::<char>::empty() =~= old(out)@);
        },
    }
}

/// Parse the text chunks of a streaming response body, accumulating the
/// `delta.content` of every `data:` line.
pub fn parse_sse_text(body: &str) -> (r: String)
    ensures
        r@ == sse_text(body@),
{
    let s = chars_of(body);
    let mut full_text: Vec<char> = Vec::new();
    let mut start: usize = 0;
    loop
        invariant_except_break
            start <= s@.len(),
            full_text@ + sse_from(s@, start as int) == sse_text(s@),
        ensures
            full_text@ == sse_text(s@),
        decreases s@.len() - start,
    {
        let mut e = start;
        while e < s.len() && s[e] != '\n'
            invariant
                start <= e <= s@.len(),
                line_end(s@, e as int) == line_end(s@, start as int),
            decreases s@.len() - e,
        {
            e = e + 1;
        }
        let line = crate::text::slice_chars(&s, start, e);
        let ghost before = full_text@;
        push_line_text(&mut full_text, &line);
        if e < s.len() {
            assert(full_text@ + sse_from(s@, e + 1) =~= before + sse_from(s@, start as int));
            start = e + 1;
        } else {
            assert(full_text@ =~= before + sse_from(s@, start as int));
            break ;
        }
    }
    string_of(&full_text)
}

// ---------------------------------------------------------------------------
// Request construction
// ---------------------------------------------------------------------------

/// The system prompt sent with every request.
pub const SYSTEM_PROMPT: &'static str = "你是一个专业的音频理解助手。你会收到一段音频录音。请仔细分析并输出一个 JSON 对象。

要求：
1. 首先准确转录音频中的语音内容。如果没有语音，transcript 设为空字符串。
2. 分析说话人的情绪、意图和语气。
3. 如果无法可靠判断，使用 \"unknown\" 而非猜测。
4. 对于短音频(<2秒)、嘈杂音频或非语音音频，仍返回有效结构。
5. 只输出 JSON，不要添加 markdown 围栏或其他格式。

输出格式：
{\"transcript\":\"...\",\"summary\":\"...\",\"intent\":\"...\",\"emotion\":{\"primary\":\"...\",\"confidence\":0.0},\"tone\":[\"...\"],\"key_points\":[\"...\"],\"non_verbal_signals\":[\"...\"],\"language\":\"...\"}";

/// The user prompt sent with every request.
pub const USER_PROMPT: &'static str = "请分析这段音频，输出结构化的 JSON 结果。";

/// The request body for the audio understanding API.
pub open spec fn request_body(data_url: Seq<char>, format: Seq<char>, model: Seq<char>) -> JsonV {
    JsonV::Object(
        seq![
            ("model"@, JsonV::Str(model)),
            ("stream"@, JsonV::Bool(true)),
            ("stream_options"@, JsonV::Object(seq![("include_usage"@, JsonV::Bool(true))])),
            ("modalities"@, JsonV::Array(seq![JsonV::Str("text"@)])),
            (
                "messages"@,
                JsonV::Array(
                    seq![
                        JsonV::Object(
                            seq![
                                ("role"@, JsonV::Str("system"@)),
                                ("content"@, JsonV::Str(SYSTEM_PROMPT@)),
                            ],
                        ),
                        JsonV::Object(
                            seq![
                                ("role"@, JsonV::Str("user"@)),
                                (
                                    "content"@,
                                    JsonV::Array(
                                        seq![
                                            JsonV::Object(
                                                seq![
                                                    ("type"@, JsonV::Str("input_audio"@)),
                                                    (
                                                        "input_audio"@,
                                                        JsonV::Object(
                                                            seq![
                                                                ("data"@, JsonV::Str(data_url)),
                                                                ("format"@, JsonV::Str(format)),
                                                            ],
                                                        ),
                                                    ),
                                                ],
                                            ),
                                            JsonV::Object(
                                                seq![
                                                    ("type"@, JsonV::Str("text"@)),
                                                    ("text"@, JsonV::Str(USER_PROMPT@)),
                                                ],
                                            ),
                                        ],
                                    ),
                                ),
                            ],
                        ),
                    ],
                ),
            ),
        ],
    )
}

/// `{key: text}` as a one-member object.
fn text_member_object(key1: &str, text1: &str, key2: &str, v2: Json) -> (r: Json)
    ensures
        r.deep() == JsonV::Object(seq![(key1@, JsonV::Str(text1@)), (key2@, v2.deep())]),
{
    let mut m: Vec<(String, Json)> = Vec::new();
    push_member(&mut m, key1, json_text(text1));
    push_member(&mut m, key2, v2);
    let r = Json::Object(m);
    assert(crate::json::deep_members(m@) =~= seq![(key1@, JsonV::Str(text1@)), (key2@, v2.deep())]);
    r
}

/// The system and user messages.
fn request_messages(audio_data_url: &str, audio_format: &str) -> (r: Json)
    ensures
        r.deep() == request_body(audio_data_url@, audio_format@, Seq::empty())->Object_0[4].1,
{
    let mut audio: Vec<(String, Json)> = Vec::new();
    push_member(&mut audio, "data", json_text(audio_data_url));
    push_member(&mut audio, "format", json_text(audio_format));
    let input = text_member_object("type", "input_audio", "input_audio", Json::Object(audio));
    let mut text_part: Vec<(String, Json)> = Vec::new();
    push_member(&mut text_part, "type", json_text("text"));
    push_member(&mut text_part, "text", json_text(USER_PROMPT));
    let mut parts: Vec<Json> = Vec::new();
    push_item(&mut parts, input);
    push_item(&mut parts, Json::Object(text_part));
    let user = text_member_object("role", "user", "content", Json::Array(parts));
    let system = text_member_object("role", "system", "content", json_text(SYSTEM_PROMPT));
    let mut messages: Vec<Json> = Vec::new();
    push_item(&mut messages, system);
    push_item(&mut messages, user);
    let r = Json::Array(messages);
    proof {
        assert(crate::json::deep_members(audio@) =~= seq![
            ("data"@, JsonV::Str(audio_data_url@)),
            ("format"@, JsonV::Str(audio_format@)),
        ]);
        assert(crate::json::deep_members(text_part@) =~= seq![
            ("type"@, JsonV::Str("text"@)),
            ("text"@, JsonV::Str(USER_PROMPT@)),
        ]);
        assert(crate::json::deep_items(parts@) =~= seq![input.deep(), Json::Object(text_part).deep()]);
        assert(crate::json::deep_items(messages@) =~= seq![system.deep(), user.deep()]);
    }
    r
}

/// Build the request body for the Qwen Omni API.
pub fn build_request_body(audio_data_url: &str, audio_format: &str, model: &str) -> (r: Json)
    ensures
        r.deep() == request_body(audio_data_url@, audio_format@, model@),
{
    let mut opts: Vec<(String, Json)> = Vec::new();
    push_member(&mut opts, "include_usage", Json::Bool(true));
    let mut modalities: Vec<Json> = Vec::new();
    push_item(&mut modalities, json_text("text"));
    let messages = request_messages(audio_data_url, audio_format);
    let mut m: Vec<(String, Json)> = Vec::new();
    push_member(&mut m, "model", json_text(model));
    push_member(&mut m, "stream", Json::Bool(true));
    push_member(&mut m, "stream_options", Json::Object(opts));
    push_member(&mut m, "modalities", Json::Array(modalities));
    push_member(&mut m, "messages", messages);
    let r = Json::Object(m);
    proof {
        assert(crate::json::deep_members(opts@) =~= seq![("include_usage"@, JsonV::Bool(true))]);
        assert(crate::json::deep_items(modalities@) =~= seq![JsonV::Str("text"@)]);
        let spec_m = request_body(audio_data_url@, audio_format@, model@)->Object_0;
        assert(crate::json::deep_members(m@) =~= spec_m);
    }
    r
}

/// The character for a 6-bit value in the standard base64 alphabet
/// (RFC 4648, section 4).
pub open spec fn base64_digit(v: nat) -> char {
    if v < 26 {
        (65 + v) as char
    } else if v < 52 {
        (97 + (v - 26)) as char
    } else if v < 62 {
        (48 + (v - 52)) as char
    } else if v == 62 {
        '+'
    } else {
        '/'
    }
}

/// Standard base64 with `=` padding (RFC 4648, section 4).
pub open spec fn base64_encode(b: Seq<u8>) -> Seq<char>
    decreases b.len(),
{
    if b.len() == 0 {
        Seq::empty()
    } else if b.len() == 1 {
        seq![base64_digit(b[0] as nat / 4), base64_digit((b[0] as nat % 4) * 16), '=', '=']
    } else if b.len() == 2 {
        seq![
            base64_digit(b[0] as nat / 4),
            base64_digit((b[0] as nat % 4) * 16 + b[1] as nat / 16),
            base64_digit((b[1] as nat % 16) * 4),
            '=',
        ]
    } else {
        seq![
            base64_digit(b[0] as nat / 4),
            base64_digit((b[0] as nat % 4) * 16 + b[1] as nat / 16),
            base64_digit((b[1] as nat % 16) * 4 + b[2] as nat / 64),
            base64_digit(b[2] as nat % 64),
        ] + base64_encode(b.skip(3))
    }
}

/// Encodes `bytes` with `base64::engine::general_purpose::STANDARD`.
///
/// The crate documents that engine as the standard alphabet with padding;
/// `base64_encode` is that encoding.  The call panics where the encoded
/// length would overflow `usize`, which `requires` leaves out.
#[verifier::external_body]
fn encode_base64(bytes: &[u8]) -> (r: String)
    requires
        (bytes@.len() / 3) * 4 + 4 <= usize::MAX,
    ensures
        r@ == base64_encode(bytes@),
{
    base64::Engine::encode(&base64::engine::general_purpose::STANDARD, bytes)
}

/// `std::path::Path::extension` of a path given as text: the part of the
/// file name after its last `.`, if it has one.
pub uninterp spec fn path_extension(path: Seq<char>) -> Option<Seq<char>>;

/// Calls `std::path::Path::new(path).extension()` and converts it back to
/// text (a part of a `str` is always valid UTF-8).  The result is named by
/// `path_extension`; which part is the file name is `Path`'s rule.
#[verifier::external_body]
fn file_extension(path: &str) -> (r: Option<String>)
    ensures
        opt_view(r) == path_extension(path@),
{
    std::path::Path::new(path).extension().and_then(|e| e.to_str()).map(|e| e.to_string())
}

/// `str::to_lowercase`: the Unicode lowercase mapping of a text.
pub uninterp spec fn lowercase(s: Seq<char>) -> Seq<char>;

/// Calls `str::to_lowercase`; the result is named by `lowercase`.
#[verifier::external_body]
fn to_lowercase(s: &str) -> (r: String)
    ensures
        r@ == lowercase(s@),
{
    s.to_lowercase()
}

/// The audio format named by a file's extension, lowercased; `wav` when it
/// has none.
pub open spec fn audio_format(path: Seq<char>) -> Seq<char> {
    match path_extension(path) {
        Some(e) => lowercase(e),
        None => "wav"@,
    }
}

/// The `data:` URL that carries the audio in the request.
pub open spec fn audio_data_url(format: Seq<char>, bytes: Seq<u8>) -> Seq<char> {
    "data:audio/"@ + format + ";base64,"@ + base64_encode(bytes)
}

/// A request ready to be sent: where, with which key, and what.
#[derive(Debug)]
pub struct UnderstandRequest {
    pub url: String,
    pub api_key: String,
    pub body: Json,
}

/// What is known of the audio file before the request is built.
#[derive(Debug)]
pub enum AudioFile {
    /// No file exists at the path.
    Missing,
    /// The file exists but reading it failed with this message.
    Unreadable(String),
    /// The file's contents.
    Bytes(Vec<u8>),
}

/// The request that the audio at `file_path` gives rise to.
pub open spec fn built_request(
    r: UnderstandRequest,
    api_key: Seq<char>,
    file_path: Seq<char>,
    bytes: Seq<u8>,
    model: Seq<char>,
    base_url: Seq<char>,
) -> bool {
    let fmt = audio_format(file_path);
    &&& r.url@ == base_url + "/chat/completions"@
    &&& r.api_key@ == api_key
    &&& r.body.deep() == request_body(audio_data_url(fmt, bytes), fmt, model)
}

/// The audio format of the file at `file_path`.
fn format_of(file_path: &str) -> (r: String)
    ensures
        r@ == audio_format(file_path@),
{
    match file_extension(file_path) {
        Some(e) => to_lowercase(e.as_str()),
        None => copy_str("wav"),
    }
}

/// The largest audio file that is uploaded: 25 MB.
pub const MAX_AUDIO_BYTES: usize = 26_214_400;

/// Whether an audio format is one the provider takes: `wav` or `mp3`.
pub open spec fn supported_format(fmt: Seq<char>) -> bool {
    fmt == "wav"@ || fmt == "mp3"@
}

/// Build the request for the audio at `file_path` with contents `bytes`.
pub fn build_understand_request(
    api_key: String,
    file_path: &str,
    bytes: &[u8],
    model: &str,
    base_url: &str,
) -> (r: UnderstandRequest)
    requires
        (bytes@.len() / 3) * 4 + 4 <= usize::MAX,
    ensures
        built_request(r, api_key@, file_path@, bytes@, model@, base_url@),
{
    let base64_data = encode_base64(bytes);
    let ext = format_of(file_path);
    let mut data_url: Vec<char> = Vec::new();
    crate::text::push_str(&mut data_url, "data:audio/");
    crate::text::push_str(&mut data_url, ext.as_str());
    crate::text::push_str(&mut data_url, ";base64,");
    crate::text::push_str(&mut data_url, base64_data.as_str());
    let data_url = string_of(&data_url);
    let body = build_request_body(data_url.as_str(), ext.as_str(), model);
    let url = crate::text::concat2(base_url, "/chat/completions");
    UnderstandRequest { url, api_key, body }
}

/// The checks made before a request is sent, in order: the API key must
/// be set, the file must exist and be readable, its format must be `wav` or
/// `mp3`, and it must be at most 25 MB long.
pub open spec fn preflight(
    r: Result<UnderstandRequest, HimdError>,
    key_env: Option<String>,
    file_path: Seq<char>,
    file: AudioFile,
    model: Seq<char>,
    base_url: Seq<char>,
) -> bool {
    match key_env {
        None => r matches Err(HimdError::Config(m))
            && m@ == "DASHSCOPE_API_KEY environment variable is not set."@,
        Some(k) => match file {
            AudioFile::Missing => r matches Err(HimdError::FileNotFound(p)) && p@ == file_path,
            AudioFile::Unreadable(e) => r matches Err(HimdError::Io(m)) && m@
                == "Failed to read audio file: "@ + e@,
            AudioFile::Bytes(b) => if !supported_format(audio_format(file_path)) {
                r matches Err(HimdError::Validation(m)) && m@ == "Unsupported audio format: "@
                    + audio_format(file_path) + " (only wav and mp3 are supported)"@
            } else if b@.len() > MAX_AUDIO_BYTES {
                r matches Err(HimdError::Validation(m)) && m@ == "Audio file too large: "@
                    + crate::text::decimal(b@.len()) + " bytes (max 25MB)"@
            } else {
                r matches Ok(req) && built_request(req, k@, file_path, b@, model, base_url)
            },
        },
    }
}

/// Everything `understand` does before the first request: check the key
/// and the file, and build the request.
pub fn prepare_understanding(
    key_env: Option<String>,
    file_path: &str,
    file: AudioFile,
    model: &str,
    base_url: &str,
) -> (r: Result<UnderstandRequest, HimdError>)
    ensures
        preflight(r, key_env, file_path@, file, model@, base_url@),
{
    let key = match api_key(key_env) {
        Ok(k) => k,
        Err(e) => return Err(e),
    };
    match file {
        AudioFile::Missing => Err(HimdError::FileNotFound(copy_str(file_path))),
        AudioFile::Unreadable(e) => Err(
            HimdError::Io(crate::text::concat2("Failed to read audio file: ", e.as_str())),
        ),
        AudioFile::Bytes(b) => {
            let fmt = format_of(file_path);
            if !(crate::text::str_eq(fmt.as_str(), "wav") || crate::text::str_eq(
                fmt.as_str(),
                "mp3",
            )) {
                return Err(
                    HimdError::Validation(
                        crate::text::concat3(
                            "Unsupported audio format: ",
                            fmt.as_str(),
                            " (only wav and mp3 are supported)",
                        ),
                    ),
                );
            }
            if b.len() > MAX_AUDIO_BYTES {
                let mut m: Vec<char> = Vec::new();
                crate::text::push_str(&mut m, "Audio file too large: ");
                crate::text::push_decimal(&mut m, b.len() as u128);
                crate::text::push_str(&mut m, " bytes (max 25MB)");
                return Err(HimdError::Validation(string_of(&m)));
            }
            Ok(build_understand_request(key, file_path, b.as_slice(), model, base_url))
        },
    }
}

// ---------------------------------------------------------------------------
// Retries and the final result
// ---------------------------------------------------------------------------

/// What to do after one request.
#[derive(Debug)]
pub enum AttemptStep {
    /// Send the request again.
    Retry,
    /// Stop with the collected text, or with this error.
    Finish(Result<String, HimdError>),
}

/// Whether an error is a server-side API error (status 500 or above).
pub open spec fn is_server_error(e: HimdError) -> bool {
    e matches HimdError::Api { status, .. } && status >= 500
}

/// The decision after request number `attempt` (counted from 0) came back
/// with `outcome`: a server error on the first request is retried once;
/// any other error ends the call; a reply ends it with the reply's text.
pub fn after_attempt(attempt: u32, outcome: Result<(u16, String), HimdError>) -> (r: AttemptStep)
    ensures
        match outcome {
            Ok((_status, text)) => r == AttemptStep::Finish(Ok(text)),
            Err(e) => if attempt == 0 && is_server_error(e) {
                r is Retry
            } else {
                r == AttemptStep::Finish(Err(e))
            },
        },
{
    match outcome {
        Ok((_status, text)) => AttemptStep::Finish(Ok(text)),
        Err(e) => {
            let retry = match &e {
                HimdError::Api { status, .. } => *status >= 500 && attempt == 0,
                _ => false,
            };
            if retry {
                AttemptStep::Retry
            } else {
                AttemptStep::Finish(Err(e))
            }
        },
    }
}

/// Whether `v` holds exactly one warning, `w`.
pub open spec fn one_warning(v: Seq<String>, w: Seq<char>) -> bool {
    strings_view(v) == seq![w]
}

/// What `finish_understanding` makes of the collected reply text.
pub open spec fn understood(r: AudioUnderstandingResult, raw: Seq<char>, model: Seq<char>) -> bool {
    if crate::text::trim(raw).len() == 0 {
        &&& r.transcript@ == Seq::<char>::empty()
        &&& r.provider@ == provider_name()
        &&& r.model@ == model
        &&& r.summary is None && r.intent is None && r.emotion is None
        &&& r.tone is None && r.key_points is None && r.non_verbal_signals is None
        &&& r.language is None && r.confidence == 0 && r.raw_text is None
        &&& one_warning(r.warnings@, "empty_response"@)
    } else {
        match json_response(raw) {
            Some(parsed) => normalized(r, parsed, raw, model),
            None => {
                &&& r.transcript@ == crate::text::trim(raw)
                &&& r.provider@ == provider_name()
                &&& r.model@ == model
                &&& r.summary is None && r.intent is None && r.emotion is None
                &&& r.tone is None && r.key_points is None && r.non_verbal_signals is None
                &&& r.language is None && r.confidence == 0
                &&& opt_view(r.raw_text) == Some(raw)
                &&& one_warning(r.warnings@, "json_parse_failed"@)
            },
        }
    }
}

/// Turn the text collected from the stream into a result: an empty reply
/// gives the empty result with an `empty_response` warning; a reply that
/// parses as JSON is normalized; any other reply becomes the transcript,
/// with a `json_parse_failed` warning.
pub fn finish_understanding(raw_text: String, model: String) -> (r: AudioUnderstandingResult)
    ensures
        understood(r, raw_text@, model@),
{
    let raw_chars = chars_of(raw_text.as_str());
    let trimmed = crate::text::trim_chars(&raw_chars);
    if trimmed.len() == 0 {
        let mut result = create_empty_result(model);
        let w = copy_str("empty_response");
        proof {
            lemma_strings_view_push(result.warnings@, w);
        }
        result.warnings.push(w);
        assert(strings_view(result.warnings@) =~= seq!["empty_response"@]);
        return result;
    }
    match parse_json_response(raw_text.as_str()) {
        Some(parsed) => normalize_result(&parsed, raw_text.as_str(), model),
        None => {
            let mut result = create_empty_result(model);
            result.transcript = string_of(&trimmed);
            result.raw_text = Some(raw_text);
            let w = copy_str("json_parse_failed");
            proof {
                lemma_strings_view_push(result.warnings@, w);
            }
            result.warnings.push(w);
            assert(strings_view(result.warnings@) =~= seq!["json_parse_failed"@]);
            result
        },
    }
}

} // verus!
