//! Speech synthesis requests, the persisted voice profile, and the
//! timestamps written into it.
use vstd::prelude::*;

use crate::errors::HimdError;
use crate::json::{opt_key, opt_str, push_member, json_text, Json, JsonV};
use crate::text::{
    chars_of, copy_str, decimal, decimal_padded, opt_view, push_decimal, push_decimal_padded,
    push_str, string_of,
};
use crate::types::{VoiceProfile, VoiceProfileResult};

verus! {

// ---------------------------------------------------------------------------
// Calendar arithmetic (proleptic Gregorian calendar, UTC)
// ---------------------------------------------------------------------------

/// Whether `y` is a Gregorian leap year.
pub open spec fn leap(y: nat) -> bool {
    (y % 4 == 0 && y % 100 != 0) || y % 400 == 0
}

/// The number of days in year `y`.
pub open spec fn year_len(y: nat) -> nat {
    if leap(y) {
        366
    } else {
        365
    }
}

/// The number of days in month `m` (1..=12) of year `y`.
pub open spec fn month_len(y: nat, m: nat) -> nat {
    if m == 2 {
        if leap(y) {
            29
        } else {
            28
        }
    } else if m == 4 || m == 6 || m == 9 || m == 11 {
        30
    } else {
        31
    }
}

/// The month and day reached by walking `days` days forward from the first
/// day of month `month` of year `year`, stepping month by month.
pub open spec fn month_walk(days: nat, year: nat, month: nat) -> (nat, nat, nat)
    decreases 13 - month,
{
    if month >= 13 || days < month_len(year, month) {
        (year, month, days + 1)
    } else {
        month_walk((days - month_len(year, month)) as nat, year, month + 1)
    }
}

/// The date reached by walking `days` days forward from January 1st of
/// `year`, stepping year by year.
pub open spec fn year_walk(days: nat, year: nat) -> (nat, nat, nat)
    decreases days,
{
    if days < year_len(year) {
        month_walk(days, year, 1)
    } else {
        year_walk((days - year_len(year)) as nat, year + 1)
    }
}

/// The `(year, month, day)` of the day `days` days after 1970-01-01.
pub open spec fn civil_from_days(days: nat) -> (nat, nat, nat) {
    year_walk(days, 1970)
}

/// The number of days from 1970-01-01 to January 1st of year `y >= 1970`.
pub open spec fn days_before_year(y: nat) -> nat
    decreases y,
{
    if y <= 1970 {
        0
    } else {
        days_before_year((y - 1) as nat) + year_len((y - 1) as nat)
    }
}

/// The number of days from January 1st to the first day of month `m` of year `y`.
pub open spec fn days_before_month(y: nat, m: nat) -> nat
    decreases m,
{
    if m <= 1 {
        0
    } else {
        days_before_month(y, (m - 1) as nat) + month_len(y, (m - 1) as nat)
    }
}

/// The number of days from 1970-01-01 to the date `(y, m, d)`.
pub open spec fn days_from_civil(y: nat, m: nat, d: nat) -> int {
    days_before_year(y) + days_before_month(y, m) + d - 1
}

/// Whether `(y, m, d)` is a calendar date on or after 1970-01-01.
pub open spec fn valid_date(y: nat, m: nat, d: nat) -> bool {
    y >= 1970 && 1 <= m <= 12 && 1 <= d <= month_len(y, m)
}

proof fn lemma_year_len_is_sum_of_months(y: nat)
    ensures
        days_before_month(y, 13) == year_len(y),
{
    reveal_with_fuel(days_before_month, 13);
}

proof fn lemma_month_walk(days: nat, year: nat, month: nat)
    requires
        1 <= month <= 12,
        days_before_month(year, month) + days < year_len(year),
    ensures
        ({
            let (y, m, d) = month_walk(days, year, month);
            &&& y == year
            &&& month <= m <= 12
            &&& 1 <= d <= month_len(y, m)
            &&& days_before_month(y, m) + d - 1 == days_before_month(year, month) + days
        }),
    decreases 13 - month,
{
    if days >= month_len(year, month) {
        if month == 12 {
            lemma_year_len_is_sum_of_months(year);
            assert(days_before_month(year, 13) == days_before_month(year, 12) + month_len(year, 12));
            assert(false);
        }
        assert(days_before_month(year, month + 1) == days_before_month(year, month) + month_len(
            year,
            month,
        ));
        lemma_month_walk((days - month_len(year, month)) as nat, year, month + 1);
    }
}

proof fn lemma_year_walk(days: nat, year: nat)
    requires
        year >= 1970,
    ensures
        ({
            let (y, m, d) = year_walk(days, year);
            &&& valid_date(y, m, d)
            &&& y >= year
            &&& days_from_civil(y, m, d) == days_before_year(year) + days
        }),
    decreases days,
{
    if days < year_len(year) {
        lemma_month_walk(days, year, 1);
    } else {
        lemma_year_walk((days - year_len(year)) as nat, year + 1);
        assert(days_before_year(year + 1) == days_before_year(year) + year_len(year));
    }
}

/// Every day count names a valid calendar date, and counting the days from
/// 1970-01-01 to that date gives the day count back.
pub proof fn lemma_civil_from_days_roundtrip(days: nat)
    ensures
        ({
            let (y, m, d) = civil_from_days(days);
            &&& valid_date(y, m, d)
            &&& days_from_civil(y, m, d) == days
        }),
{
    lemma_year_walk(days, 1970);
}

proof fn lemma_days_before_month_step(y: nat, m1: nat, m2: nat)
    requires
        1 <= m1 < m2 <= 13,
    ensures
        days_before_month(y, m1) + month_len(y, m1) <= days_before_month(y, m2),
    decreases m2 - m1,
{
    if m2 > m1 + 1 {
        lemma_days_before_month_step(y, m1, (m2 - 1) as nat);
    }
}

proof fn lemma_days_before_year_step(y1: nat, y2: nat)
    requires
        1970 <= y1 < y2,
    ensures
        days_before_year(y1) + year_len(y1) <= days_before_year(y2),
    decreases y2 - y1,
{
    if y2 > y1 + 1 {
        lemma_days_before_year_step(y1, (y2 - 1) as nat);
    }
}

proof fn lemma_day_of_year_bound(y: nat, m: nat, d: nat)
    requires
        valid_date(y, m, d),
    ensures
        days_before_month(y, m) + d - 1 < year_len(y),
{
    lemma_year_len_is_sum_of_months(y);
    if m < 12 {
        lemma_days_before_month_step(y, m, 13);
    } else {
        assert(days_before_month(y, 13) == days_before_month(y, 12) + month_len(y, 12));
    }
}

/// Distinct dates on or after 1970-01-01 have distinct day counts.
pub proof fn lemma_days_from_civil_injective(y1: nat, m1: nat, d1: nat, y2: nat, m2: nat, d2: nat)
    requires
        valid_date(y1, m1, d1),
        valid_date(y2, m2, d2),
        days_from_civil(y1, m1, d1) == days_from_civil(y2, m2, d2),
    ensures
        y1 == y2 && m1 == m2 && d1 == d2,
{
    lemma_day_of_year_bound(y1, m1, d1);
    lemma_day_of_year_bound(y2, m2, d2);
    if y1 < y2 {
        lemma_days_before_year_step(y1, y2);
    } else if y2 < y1 {
        lemma_days_before_year_step(y2, y1);
    } else if m1 < m2 {
        lemma_days_before_month_step(y1, m1, m2);
    } else if m2 < m1 {
        lemma_days_before_month_step(y1, m2, m1);
    }
}

/// Every date on or after 1970-01-01 is the date of its own day count.
pub proof fn lemma_civil_from_days_of_date(y: nat, m: nat, d: nat)
    requires
        valid_date(y, m, d),
    ensures
        days_from_civil(y, m, d) >= 0,
        civil_from_days(days_from_civil(y, m, d) as nat) == (y, m, d),
{
    let n = days_from_civil(y, m, d) as nat;
    lemma_civil_from_days_roundtrip(n);
    let (y2, m2, d2) = civil_from_days(n);
    lemma_days_from_civil_injective(y, m, d, y2, m2, d2);
}

/// Whether `y` is a leap year.
pub fn is_leap_year(y: u64) -> (r: bool)
    ensures
        r == leap(y as nat),
{
    (y % 4 == 0 && y % 100 != 0) || y % 400 == 0
}

fn month_length(leap_year: bool, m: u64) -> (r: u64)
    requires
        1 <= m <= 12,
    ensures
        leap_year ==> r == month_len(2000, m as nat),
        !leap_year ==> r == month_len(1900, m as nat),
{
    if m == 2 {
        if leap_year {
            29
        } else {
            28
        }
    } else if m == 4 || m == 6 || m == 9 || m == 11 {
        30
    } else {
        31
    }
}

/// Converts a count of days since the Unix epoch to `(year, month, day)`.
pub fn days_to_ymd(days: u64) -> (r: (u64, u64, u64))
    ensures
        (r.0 as nat, r.1 as nat, r.2 as nat) == civil_from_days(days as nat),
{
    let ghost total = days as nat;
    let mut days = days;
    let mut year: u64 = 1970;
    loop
        invariant
            1970 <= year,
            (year - 1970) * 365 + days <= total,
            total <= u64::MAX,
            year_walk(days as nat, year as nat) == civil_from_days(total),
        ensures
            1970 <= year,
            days < year_len(year as nat),
            year_walk(days as nat, year as nat) == civil_from_days(total),
        decreases days,
    {
        let days_in_year: u64 = if is_leap_year(year) {
            366
        } else {
            365
        };
        if days < days_in_year {
            break ;
        }
        days = days - days_in_year;
        year = year + 1;
    }
    let leap_year = is_leap_year(year);
    let mut month: u64 = 1;
    while month <= 12
        invariant
            1 <= month <= 13,
            days <= 366,
            leap_year == leap(year as nat),
            month_walk(days as nat, year as nat, month as nat) == civil_from_days(total),
        ensures
            1 <= month <= 13,
            days <= 366,
            month_walk(days as nat, year as nat, month as nat) == civil_from_days(total),
            month == 13 || days < month_len(year as nat, month as nat),
        decreases 13 - month,
    {
        let md = month_length(leap_year, month);
        assert(md == month_len(year as nat, month as nat));
        if days < md {
            break ;
        }
        days = days - md;
        month = month + 1;
    }
    (year, month, days + 1)
}

/// `YYYY-MM-DD` for the given fields.
pub open spec fn date_text(y: nat, m: nat, d: nat) -> Seq<char> {
    decimal_padded(y, 4) + seq!['-'] + decimal_padded(m, 2) + seq!['-'] + decimal_padded(d, 2)
}

/// `THH:MM:SS.000` for the given fields.
pub open spec fn time_text(h: nat, mi: nat, s: nat) -> Seq<char> {
    seq!['T'] + decimal_padded(h, 2) + seq![':'] + decimal_padded(mi, 2) + seq![':']
        + decimal_padded(s, 2) + seq!['.', '0', '0', '0']
}

/// The `YYYY-MM-DDTHH:MM:SS.000` rendering of `secs` seconds after the Unix
/// epoch (UTC).
pub open spec fn timestamp_text(secs: nat) -> Seq<char> {
    let (y, m, d) = civil_from_days(secs / 86400);
    let t = secs % 86400;
    date_text(y, m, d) + time_text(t / 3600, (t % 3600) / 60, t % 60)
}

/// The ISO-8601 timestamp (with a `Z` suffix) of `secs` seconds after the
/// Unix epoch.
pub open spec fn iso_timestamp(secs: nat) -> Seq<char> {
    timestamp_text(secs) + seq!['Z']
}

/// Renders a Unix timestamp as `YYYY-MM-DDTHH:MM:SS.000`.
pub fn humantime_timestamp(secs: u64) -> (r: String)
    ensures
        r@ == timestamp_text(secs as nat),
{
    let mut v: Vec<char> = Vec::new();
    push_timestamp(&mut v, secs);
    assert(v@ =~= timestamp_text(secs as nat));
    string_of(&v)
}

fn push_date(out: &mut Vec<char>, y: u64, m: u64, d: u64)
    ensures
        final(out)@ == old(out)@ + date_text(y as nat, m as nat, d as nat),
{
    let ghost start = out@;
    push_decimal_padded(out, y as u128, 4);
    out.push('-');
    push_decimal_padded(out, m as u128, 2);
    out.push('-');
    push_decimal_padded(out, d as u128, 2);
    assert(out@ =~= start + date_text(y as nat, m as nat, d as nat));
}

fn push_time(out: &mut Vec<char>, h: u64, mi: u64, s: u64)
    ensures
        final(out)@ == old(out)@ + time_text(h as nat, mi as nat, s as nat),
{
    let ghost start = out@;
    out.push('T');
    push_decimal_padded(out, h as u128, 2);
    out.push(':');
    push_decimal_padded(out, mi as u128, 2);
    out.push(':');
    push_decimal_padded(out, s as u128, 2);
    out.push('.');
    out.push('0');
    out.push('0');
    out.push('0');
    assert(out@ =~= start + time_text(h as nat, mi as nat, s as nat));
}

fn push_timestamp(out: &mut Vec<char>, secs: u64)
    ensures
        final(out)@ == old(out)@ + timestamp_text(secs as nat),
{
    let ghost start = out@;
    let days_since_epoch = secs / 86400;
    let (year, month, day) = days_to_ymd(days_since_epoch);
    let time_of_day_secs = secs % 86400;
    let hours = time_of_day_secs / 3600;
    let minutes = (time_of_day_secs % 3600) / 60;
    let seconds = time_of_day_secs % 60;
    push_date(out, year, month, day);
    push_time(out, hours, minutes, seconds);
    assert(out@ =~= start + (date_text(year as nat, month as nat, day as nat) + time_text(
        hours as nat,
        minutes as nat,
        seconds as nat,
    )));
}

/// The current time in whole seconds since the Unix epoch (0 if the system
/// clock reads earlier than the epoch).
///
/// Calls `std::time::SystemTime::now` and measures it from `UNIX_EPOCH`;
/// nothing is claimed of the value, which is the clock's.
#[verifier::external_body]
fn unix_time_secs() -> (r: u64) {
    std::time::SystemTime::now().duration_since(std::time::UNIX_EPOCH).unwrap_or_default().as_secs()
}

/// The current time as an ISO-8601 timestamp with a `Z` suffix.
pub fn chrono_now_iso() -> (r: String)
    ensures
        exists|secs: nat| r@ == #[trigger] iso_timestamp(secs),
{
    let secs = unix_time_secs();
    let mut v: Vec<char> = Vec::new();
    push_timestamp(&mut v, secs);
    v.push('Z');
    assert(v@ =~= iso_timestamp(secs as nat));
    string_of(&v)
}

// ---------------------------------------------------------------------------
// Configuration
// ---------------------------------------------------------------------------

/// The default TTS model.
pub open spec fn default_tts_model() -> Seq<char> {
    "qwen3-tts-instruct-flash"@
}

/// The TTS model, given the value of `TTS_MODEL`.
pub fn tts_model(env_value: Option<String>) -> (r: String)
    ensures
        match env_value {
            Some(v) => r == v,
            None => r@ == default_tts_model(),
        },
{
    match env_value {
        Some(v) => v,
        None => copy_str("qwen3-tts-instruct-flash"),
    }
}

/// `url::Url::parse` of a text, read through `Url::scheme` and
/// `Url::host_str`: the URL's scheme and host, or `None` where the text is
/// not an absolute URL.
pub uninterp spec fn url_scheme_host(input: Seq<char>) -> Option<(Seq<char>, Option<Seq<char>>)>;

/// Calls `url::Url::parse` and converts the parsed URL to its scheme and
/// host text.  The result is named by `url_scheme_host`: which texts parse,
/// and how they are normalised, is the `url` crate's WHATWG parser.
#[verifier::external_body]
fn parse_url_origin(input: &str) -> (r: Option<(String, Option<String>)>)
    ensures
        match r {
            Some((scheme, host)) => url_scheme_host(input@) == Some((scheme@, opt_view(host))),
            None => url_scheme_host(input@) is None,
        },
{
    url::Url::parse(input).ok().map(|u| (u.scheme().to_string(), u.host_str().map(|h| h.to_string())))
}

/// The path of the TTS endpoint below the origin.
pub open spec fn tts_endpoint_path() -> Seq<char> {
    "/api/v1/services/aigc/multimodal-generation/generation"@
}

/// The TTS endpoint for an API base URL: the base's origin (scheme and
/// host; the default host where the URL has none, the default origin where
/// it does not parse) followed by the endpoint path.
pub open spec fn tts_url_for(base: Seq<char>) -> Seq<char> {
    let origin = match url_scheme_host(base) {
        Some((scheme, host)) => scheme + "://"@ + match host {
            Some(h) => h,
            None => "dashscope.aliyuncs.com"@,
        },
        None => "https://dashscope.aliyuncs.com"@,
    };
    origin + tts_endpoint_path()
}

/// Build the TTS API URL, given the value of `DASHSCOPE_BASE_URL`.
pub fn tts_api_url(env_value: Option<String>) -> (r: String)
    ensures
        r@ == tts_url_for(
            match env_value {
                Some(v) => v@,
                None => crate::provider::default_base_url(),
            },
        ),
{
    let base = crate::provider::base_url(env_value);
    let mut v: Vec<char> = Vec::new();
    match parse_url_origin(base.as_str()) {
        Some((scheme, host)) => {
            push_str(&mut v, scheme.as_str());
            push_str(&mut v, "://");
            match host {
                Some(h) => push_str(&mut v, h.as_str()),
                None => push_str(&mut v, "dashscope.aliyuncs.com"),
            }
        },
        None => push_str(&mut v, "https://dashscope.aliyuncs.com"),
    }
    push_str(&mut v, "/api/v1/services/aigc/multimodal-generation/generation");
    string_of(&v)
}

// ---------------------------------------------------------------------------
// Voice profile
// ---------------------------------------------------------------------------

/// The profile representation that is persisted.
#[derive(Debug)]
pub struct StoredProfile {
    pub voice: String,
    pub instructions: String,
    pub optimize_instructions: bool,
    pub updated_at: Option<String>,
}

/// The default voice.
pub open spec fn default_voice() -> Seq<char> {
    "Cherry"@
}

impl Default for StoredProfile {
    fn default() -> (r: Self)
        ensures
            r.voice@ == default_voice(),
            r.instructions@ == Seq::<char>::empty(),
            !r.optimize_instructions,
            r.updated_at is None,
    {
        StoredProfile {
            voice: copy_str("Cherry"),
            instructions: String::new(),
            optimize_instructions: false,
            updated_at: None,
        }
    }
}

/// The profile that a stored profile (or its absence) stands for.
pub open spec fn profile_of(stored: Option<StoredProfile>, p: VoiceProfile) -> bool {
    match stored {
        Some(s) => {
            &&& p.voice@ == s.voice@
            &&& p.instructions@ == s.instructions@
            &&& p.optimize_instructions == s.optimize_instructions
            &&& p.updated_at@ == match s.updated_at {
                Some(u) => u@,
                None => Seq::<char>::empty(),
            }
        },
        None => {
            &&& p.voice@ == default_voice()
            &&& p.instructions@ == Seq::<char>::empty()
            &&& !p.optimize_instructions
            &&& p.updated_at@ == Seq::<char>::empty()
        },
    }
}

fn profile_from(s: &StoredProfile) -> (p: VoiceProfile)
    ensures
        profile_of(Some(*s), p),
{
    VoiceProfile {
        voice: copy_str(s.voice.as_str()),
        instructions: copy_str(s.instructions.as_str()),
        optimize_instructions: s.optimize_instructions,
        updated_at: match &s.updated_at {
            Some(u) => copy_str(u.as_str()),
            None => String::new(),
        },
    }
}

/// The current voice profile, given the stored one (`None` where no
/// profile file exists or it does not parse).
pub fn read_profile(stored: Option<StoredProfile>) -> (p: VoiceProfile)
    ensures
        profile_of(stored, p),
{
    match stored {
        Some(s) => profile_from(&s),
        None => {
            let d = StoredProfile::default();
            profile_from(&d)
        },
    }
}

/// The stored profile after an update: the given fields replace the
/// current ones (the defaults where nothing is stored), the others stay,
/// and the update time is set.
pub open spec fn updated_profile(
    current: Option<StoredProfile>,
    voice: Option<String>,
    instructions: Option<String>,
    optimize: Option<bool>,
    s: StoredProfile,
) -> bool {
    let base_voice = match current {
        Some(c) => c.voice@,
        None => default_voice(),
    };
    let base_instructions = match current {
        Some(c) => c.instructions@,
        None => Seq::<char>::empty(),
    };
    let base_optimize = match current {
        Some(c) => c.optimize_instructions,
        None => false,
    };
    &&& s.voice@ == match voice {
        Some(v) => v@,
        None => base_voice,
    }
    &&& s.instructions@ == match instructions {
        Some(i) => i@,
        None => base_instructions,
    }
    &&& s.optimize_instructions == match optimize {
        Some(o) => o,
        None => base_optimize,
    }
    &&& s.updated_at matches Some(u) && exists|secs: nat| u@ == #[trigger] iso_timestamp(secs)
}

/// Apply profile updates: returns the profile to persist and the answer
/// that reports it.
pub fn write_profile(
    current: Option<StoredProfile>,
    voice: Option<String>,
    instructions: Option<String>,
    optimize_instructions: Option<bool>,
) -> (r: (StoredProfile, VoiceProfileResult))
    ensures
        updated_profile(current, voice, instructions, optimize_instructions, r.0),
        profile_of(Some(r.0), r.1.profile),
{
    let mut current = match current {
        Some(c) => c,
        None => StoredProfile::default(),
    };
    if let Some(v) = voice {
        current.voice = v;
    }
    if let Some(i) = instructions {
        current.instructions = i;
    }
    if let Some(o) = optimize_instructions {
        current.optimize_instructions = o;
    }
    current.updated_at = Some(chrono_now_iso());
    let profile = profile_from(&current);
    (current, VoiceProfileResult { profile })
}

/// Reading back a written profile gives the profile that the write reported.
pub proof fn lemma_read_after_write(
    written: StoredProfile,
    reported: VoiceProfile,
    read: VoiceProfile,
)
    requires
        profile_of(Some(written), reported),
        profile_of(Some(written), read),
    ensures
        read.voice@ == reported.voice@,
        read.instructions@ == reported.instructions@,
        read.optimize_instructions == reported.optimize_instructions,
        read.updated_at@ == reported.updated_at@,
{
}

// ---------------------------------------------------------------------------
// Synthesis
// ---------------------------------------------------------------------------

/// The longest text, in characters, that is synthesized.
pub const MAX_TEXT_CHARS: usize = 600;

/// The checks made before synthesis, in order: the text must not be blank,
/// must be at most 600 characters long, and the API key must be set.
pub open spec fn synthesis_checked(
    r: Result<String, HimdError>,
    text: &str,
    key_env: Option<String>,
) -> bool {
    if crate::text::trim(text@).len() == 0 {
        r matches Err(HimdError::Validation(m)) && m@ == "Text is required for TTS"@
    } else if text@.len() > 600 {
        r matches Err(HimdError::Validation(m)) && m@ == "Text too long: "@ + decimal(
            text@.len(),
        ) + " chars (max 600)"@
    } else {
        match key_env {
            Some(k) => r matches Ok(key) && key == k,
            None => r matches Err(HimdError::Config(m))
                && m@ == "DASHSCOPE_API_KEY environment variable is not set."@,
        }
    }
}

/// Validate the text and resolve the API key.
pub fn check_synthesis(text: &str, key_env: Option<String>) -> (r: Result<String, HimdError>)
    ensures
        synthesis_checked(r, text, key_env),
{
    let cs = chars_of(text);
    let t = crate::text::trim_chars(&cs);
    if t.len() == 0 {
        return Err(HimdError::Validation(copy_str("Text is required for TTS")));
    }
    let n = cs.len();
    if n > MAX_TEXT_CHARS {
        let mut m: Vec<char> = Vec::new();
        push_str(&mut m, "Text too long: ");
        push_decimal(&mut m, n as u128);
        push_str(&mut m, " chars (max 600)");
        return Err(HimdError::Validation(string_of(&m)));
    }
    crate::provider::api_key(key_env)
}

/// A synthesis request ready to be sent, with the settings it uses.
#[derive(Debug)]
pub struct SynthRequest {
    pub url: String,
    pub api_key: String,
    pub payload: Json,
    pub model: String,
    pub voice: String,
    pub instructions: String,
    pub optimize_instructions: bool,
}

/// The TTS request payload.
pub open spec fn tts_payload(
    model: Seq<char>,
    text: Seq<char>,
    voice: Seq<char>,
    instructions: Seq<char>,
    optimize: bool,
) -> JsonV {
    JsonV::Object(
        seq![
            ("model"@, JsonV::Str(model)),
            (
                "input"@,
                JsonV::Object(
                    seq![
                        ("text"@, JsonV::Str(text)),
                        ("voice"@, JsonV::Str(voice)),
                        ("instructions"@, JsonV::Str(instructions)),
                        ("optimize_instructions"@, JsonV::Bool(optimize)),
                        ("language_type"@, JsonV::Str("Auto"@)),
                    ],
                ),
            ),
        ],
    )
}

/// The request for `text`: explicit settings win over the profile's.
pub open spec fn synthesis_request(
    r: SynthRequest,
    text: Seq<char>,
    voice: Option<String>,
    instructions: Option<String>,
    optimize: Option<bool>,
    api_key: Seq<char>,
    profile: VoiceProfile,
    model: Seq<char>,
    url: Seq<char>,
) -> bool {
    &&& r.voice@ == match voice {
        Some(v) => v@,
        None => profile.voice@,
    }
    &&& r.instructions@ == match instructions {
        Some(i) => i@,
        None => profile.instructions@,
    }
    &&& r.optimize_instructions == match optimize {
        Some(o) => o,
        None => profile.optimize_instructions,
    }
    &&& r.model@ == model
    &&& r.url@ == url
    &&& r.api_key@ == api_key
    &&& r.payload.deep() == tts_payload(
        model,
        text,
        r.voice@,
        r.instructions@,
        r.optimize_instructions,
    )
}

/// Explicit settings win over the profile: a setting given in the call is
/// the one the request uses and the one its payload's `input` carries,
/// whatever the profile holds; a setting not given is the profile's.
pub proof fn lemma_explicit_settings_win(
    r: SynthRequest,
    text: Seq<char>,
    voice: Option<String>,
    instructions: Option<String>,
    optimize: Option<bool>,
    api_key: Seq<char>,
    profile: VoiceProfile,
    model: Seq<char>,
    url: Seq<char>,
)
    requires
        synthesis_request(r, text, voice, instructions, optimize, api_key, profile, model, url),
    ensures
        r.payload.deep() == JsonV::Object(
            seq![
                ("model"@, JsonV::Str(model)),
                (
                    "input"@,
                    JsonV::Object(
                        seq![
                            ("text"@, JsonV::Str(text)),
                            ("voice"@, JsonV::Str(r.voice@)),
                            ("instructions"@, JsonV::Str(r.instructions@)),
                            ("optimize_instructions"@, JsonV::Bool(r.optimize_instructions)),
                            ("language_type"@, JsonV::Str("Auto"@)),
                        ],
                    ),
                ),
            ],
        ),
        voice matches Some(v) ==> r.voice@ == v@,
        voice is None ==> r.voice@ == profile.voice@,
        instructions matches Some(i) ==> r.instructions@ == i@,
        instructions is None ==> r.instructions@ == profile.instructions@,
        optimize matches Some(o) ==> r.optimize_instructions == o,
        optimize is None ==> r.optimize_instructions == profile.optimize_instructions,
{
}

/// Build the synthesis request from the text, the explicit settings and
/// the stored profile.
pub fn build_synthesis_request(
    text: &str,
    voice: Option<String>,
    instructions: Option<String>,
    optimize_instructions: Option<bool>,
    api_key: String,
    profile: VoiceProfile,
    model: String,
    url: String,
) -> (r: SynthRequest)
    ensures
        synthesis_request(
            r,
            text@,
            voice,
            instructions,
            optimize_instructions,
            api_key@,
            profile,
            model@,
            url@,
        ),
{
    let effective_voice = match voice {
        Some(v) => v,
        None => profile.voice,
    };
    let effective_instructions = match instructions {
        Some(i) => i,
        None => profile.instructions,
    };
    let effective_optimize = match optimize_instructions {
        Some(o) => o,
        None => profile.optimize_instructions,
    };
    let mut input: Vec<(String, Json)> = Vec::new();
    push_member(&mut input, "text", json_text(text));
    push_member(&mut input, "voice", json_text(effective_voice.as_str()));
    push_member(&mut input, "instructions", json_text(effective_instructions.as_str()));
    push_member(&mut input, "optimize_instructions", Json::Bool(effective_optimize));
    push_member(&mut input, "language_type", json_text("Auto"));
    let mut m: Vec<(String, Json)> = Vec::new();
    push_member(&mut m, "model", json_text(model.as_str()));
    push_member(&mut m, "input", Json::Object(input));
    let payload = Json::Object(m);
    proof {
        let spec_p = tts_payload(
            model@,
            text@,
            effective_voice@,
            effective_instructions@,
            effective_optimize,
        );
        assert(crate::json::deep_members(input@) =~= spec_p->Object_0[1].1->Object_0);
        assert(crate::json::deep_members(m@) =~= spec_p->Object_0);
    }
    SynthRequest {
        url,
        api_key,
        payload,
        model,
        voice: effective_voice,
        instructions: effective_instructions,
        optimize_instructions: effective_optimize,
    }
}

/// The audio URL in a TTS reply: `output.audio.url`.
pub open spec fn reply_audio_url(reply: Json) -> Option<Seq<char>> {
    opt_str(opt_key(opt_key(opt_key(Some(reply), "output"@), "audio"@), "url"@))
}

/// The audio URL in a TTS reply, or the error reported when it has none.
pub fn tts_audio_url(reply: &Json) -> (r: Result<String, HimdError>)
    ensures
        match reply_audio_url(*reply) {
            Some(u) => r matches Ok(s) && s@ == u,
            None => r matches Err(HimdError::Io(m)) && m@ == "TTS API did not return an audio URL"@,
        },
{
    let url = match reply.get("output") {
        Some(o) => match o.get("audio") {
            Some(a) => match a.get("url") {
                Some(u) => u.as_str(),
                None => None,
            },
            None => None,
        },
        None => None,
    };
    match url {
        Some(u) => Ok(copy_str(u.as_str())),
        None => Err(HimdError::Io(copy_str("TTS API did not return an audio URL"))),
    }
}

/// Result from TTS synthesis.
#[derive(Debug)]
pub struct SynthResult {
    pub audio_file: String,
    pub model: String,
    pub voice: String,
    pub instructions: Option<String>,
    pub optimize_instructions: bool,
    pub text_length: usize,
}

/// The result of a synthesis whose audio was saved at `audio_file`: empty
/// instructions are reported as none; the length is the text's UTF-8 size.
pub fn synth_result(request: SynthRequest, text: &str, audio_file: String) -> (r: SynthResult)
    ensures
        r.audio_file == audio_file,
        r.model == request.model,
        r.voice == request.voice,
        r.optimize_instructions == request.optimize_instructions,
        request.instructions@.len() == 0 ==> r.instructions is None,
        request.instructions@.len() > 0 ==> r.instructions == Some(request.instructions),
        r.text_length == text.len(),
{
    let instructions = if request.instructions.as_str().is_empty() {
        None
    } else {
        Some(request.instructions)
    };
    SynthResult {
        audio_file,
        model: request.model,
        voice: request.voice,
        instructions,
        optimize_instructions: request.optimize_instructions,
        text_length: text.len(),
    }
}

} // verus!
