//! Language detection: which configured languages a probed file carries.
//!
//! Probing the file (running ffprobe) happens outside this module; the
//! detector works on the audio streams the probe reported.
pub mod error;
pub mod ffprobe;

use vstd::prelude::*;

pub use error::DetectionError;

use crate::config::{LanguageDefinition, LanguagesConfig};
use crate::config::types::definition_keys;
use crate::text::{eq_ignore_ascii_case, seq_has, str_eq_ignore_ascii_case, views};

verus! {

/// Default per-call ffprobe timeout, in milliseconds.
pub const DEFAULT_FFPROBE_TIMEOUT_MS: u64 = 30_000;

/// One audio stream as reported by ffprobe.
#[derive(Debug, Clone)]
pub struct AudioStream {
    pub language: Option<String>,
    pub channels: Option<u32>,
    pub is_commentary: bool,
}

/// The outcome of detection on one file.
#[derive(Debug, Clone)]
pub struct DetectionResult {
    /// Language keys detected in the file (each once, in definition order).
    pub languages: Vec<String>,
    /// `true` when the file contains two or more configured languages.
    pub is_multi_audio: bool,
    /// All audio streams ffprobe reported.
    pub audio_streams: Vec<AudioStream>,
}

/// Every key detected among the first `n` definitions is the key of one of
/// them; with distinct keys, none is detected twice.
proof fn lemma_detected_keys_distinct(defs: Seq<(String, LanguageDefinition)>, streams: Seq<AudioStream>, n: int)
    requires
        0 <= n <= defs.len(),
        definition_keys(defs).no_duplicates(),
    ensures
        detected_keys(defs, streams, n).no_duplicates(),
        forall|k: int| 0 <= k < detected_keys(defs, streams, n).len() ==> exists|j: int|
            0 <= j < n && #[trigger] detected_keys(defs, streams, n)[k] == defs[j].0@,
    decreases n,
{
    if n > 0 {
        lemma_detected_keys_distinct(defs, streams, n - 1);
        let prev = detected_keys(defs, streams, n - 1);
        if streams_carry(streams, defs[n - 1].1) {
            let cur = prev.push(defs[n - 1].0@);
            assert forall|k: int| 0 <= k < prev.len() implies #[trigger] prev[k] != defs[n - 1].0@ by {
                let j = choose|j: int| 0 <= j < n - 1 && prev[k] == defs[j].0@;
                assert(definition_keys(defs)[j] == defs[j].0@);
                assert(definition_keys(defs)[n - 1] == defs[n - 1].0@);
            }
            assert forall|k: int| 0 <= k < cur.len() implies exists|j: int| 0 <= j < n && #[trigger] cur[k] == defs[j].0@ by {
                if k < prev.len() {
                    assert(cur[k] == prev[k]);
                } else {
                    assert(cur[k] == defs[n - 1].0@);
                }
            }
        }
    }
}

/// The tag ffprobe uses for an undetermined language.
pub open spec fn und() -> Seq<char> {
    seq!['u', 'n', 'd']
}

/// `code` is one of the ISO 639-1 or 639-2 codes of `def` (ignoring ASCII case).
pub open spec fn code_matches_definition(def: LanguageDefinition, code: Seq<char>) -> bool {
    ||| exists|i: int| 0 <= i < def.iso_639_1@.len() && eq_ignore_ascii_case(#[trigger] def.iso_639_1@[i]@, code)
    ||| exists|i: int| 0 <= i < def.iso_639_2@.len() && eq_ignore_ascii_case(#[trigger] def.iso_639_2@[i]@, code)
}

/// `code` maps to the configured language `key`.
pub open spec fn code_matches_key(cfg: LanguagesConfig, code: Seq<char>, key: Seq<char>) -> bool {
    match cfg.definition_of(key) {
        Some(def) => code_matches_definition(def, code),
        None => false,
    }
}

/// A stream that names a language other than `und`, matching `def`.
pub open spec fn stream_carries(s: AudioStream, def: LanguageDefinition) -> bool {
    match s.language {
        Some(code) => !eq_ignore_ascii_case(code@, und()) && code_matches_definition(def, code@),
        None => false,
    }
}

/// Some stream carries the language `def`.
pub open spec fn streams_carry(streams: Seq<AudioStream>, def: LanguageDefinition) -> bool {
    exists|i: int| 0 <= i < streams.len() && stream_carries(#[trigger] streams[i], def)
}

/// Keys of the first `n` definitions that some stream carries, in order.
pub open spec fn detected_keys(
    defs: Seq<(String, LanguageDefinition)>,
    streams: Seq<AudioStream>,
    n: int,
) -> Seq<Seq<char>>
    decreases n,
{
    if n <= 0 {
        Seq::empty()
    } else {
        let prev = detected_keys(defs, streams, n - 1);
        if streams_carry(streams, defs[n - 1].1) {
            prev.push(defs[n - 1].0@)
        } else {
            prev
        }
    }
}

/// A base track for `target`: non-commentary, at most 5.1 (or unknown
/// channel count), untagged / `und` or tagged with `target`'s language.
pub open spec fn is_base_track(cfg: LanguagesConfig, s: AudioStream, target: Seq<char>) -> bool {
    let lang_ok = match s.language {
        None => true,
        Some(code) => eq_ignore_ascii_case(code@, und()) || code_matches_key(cfg, code@, target),
    };
    &&& lang_ok
    &&& !s.is_commentary
    &&& match s.channels {
        None => true,
        Some(c) => c <= 6,
    }
}

/// The detection engine over a language configuration.
#[derive(Debug, Clone)]
pub struct LanguageDetector {
    pub languages: LanguagesConfig,
    /// Per-call ffprobe timeout, in milliseconds.
    pub ffprobe_timeout_ms: u64,
}

fn und_str() -> (r: String)
    ensures
        r@ == und(),
{
    let cs: Vec<char> = vec!['u', 'n', 'd'];
    let r = crate::text::string_from_chars(cs.as_slice());
    assert(cs@ =~= und());
    r
}

fn any_code_matches(codes: &Vec<String>, code: &str) -> (r: bool)
    ensures
        r == exists|i: int| 0 <= i < codes@.len() && eq_ignore_ascii_case(#[trigger] codes@[i]@, code@),
{
    let mut i: usize = 0;
    while i < codes.len()
        invariant
            i <= codes@.len(),
            forall|j: int| 0 <= j < i ==> !eq_ignore_ascii_case(#[trigger] codes@[j]@, code@),
        decreases codes@.len() - i,
    {
        if str_eq_ignore_ascii_case(codes[i].as_str(), code) {
            return true;
        }
        i = i + 1;
    }
    false
}

/// `code` is one of `def`'s ISO codes.
pub fn definition_matches(def: &LanguageDefinition, code: &str) -> (r: bool)
    ensures
        r == code_matches_definition(*def, code@),
{
    any_code_matches(&def.iso_639_1, code) || any_code_matches(&def.iso_639_2, code)
}

fn stream_carries_exec(s: &AudioStream, def: &LanguageDefinition) -> (r: bool)
    ensures
        r == stream_carries(*s, *def),
{
    match &s.language {
        Some(code) => {
            let u = und_str();
            !str_eq_ignore_ascii_case(code.as_str(), u.as_str()) && definition_matches(def, code.as_str())
        },
        None => false,
    }
}

fn streams_carry_exec(streams: &Vec<AudioStream>, def: &LanguageDefinition) -> (r: bool)
    ensures
        r == streams_carry(streams@, *def),
{
    let mut i: usize = 0;
    while i < streams.len()
        invariant
            i <= streams@.len(),
            forall|j: int| 0 <= j < i ==> !stream_carries(#[trigger] streams@[j], *def),
        decreases streams@.len() - i,
    {
        if stream_carries_exec(&streams[i], def) {
            return true;
        }
        i = i + 1;
    }
    false
}

impl LanguageDetector {
    /// Build a detector with the default ffprobe timeout.
    pub fn new(languages: LanguagesConfig) -> (r: Self)
        ensures
            r.languages == languages,
            r.ffprobe_timeout_ms == DEFAULT_FFPROBE_TIMEOUT_MS,
    {
        Self::with_timeout(languages, DEFAULT_FFPROBE_TIMEOUT_MS)
    }

    /// Build a detector with a custom ffprobe timeout (milliseconds).
    pub fn with_timeout(languages: LanguagesConfig, ffprobe_timeout_ms: u64) -> (r: Self)
        ensures
            r.languages == languages,
            r.ffprobe_timeout_ms == ffprobe_timeout_ms,
    {
        LanguageDetector { languages, ffprobe_timeout_ms }
    }

    /// True if an ISO 639-1/2 `code` maps to the configured language `key`.
    pub fn code_matches_key(&self, code: &str, key: &str) -> (r: bool)
        requires
            self.languages.well_formed(),
        ensures
            r == code_matches_key(self.languages, code@, key@),
    {
        match self.languages.find_definition(key) {
            Some(i) => definition_matches(&self.languages.definitions[i].1, code),
            None => false,
        }
    }

    /// Keys of every configured language that some stream carries.
    pub fn languages_from_streams(&self, streams: &Vec<AudioStream>) -> (out: Vec<String>)
        ensures
            views(out@) == detected_keys(self.languages.definitions@, streams@, self.languages.definitions@.len() as int),
    {
        let defs = &self.languages.definitions;
        let mut out: Vec<String> = Vec::new();
        let mut i: usize = 0;
        while i < defs.len()
            invariant
                defs == &self.languages.definitions,
                i <= defs@.len(),
                views(out@) == detected_keys(defs@, streams@, i as int),
            decreases defs@.len() - i,
        {
            if streams_carry_exec(streams, &defs[i].1) {
                let k = defs[i].0.clone();
                out.push(k);
                assert(views(out@) =~= detected_keys(defs@, streams@, i as int).push(defs@[i as int].0@));
            }
            i = i + 1;
        }
        out
    }

    /// Outcome of detection given the streams a probe reported.
    pub fn detection_from_streams(&self, streams: Vec<AudioStream>) -> (r: DetectionResult)
        ensures
            views(r.languages@) == detected_keys(self.languages.definitions@, streams@, self.languages.definitions@.len() as int),
            r.is_multi_audio == (r.languages@.len() >= 2),
            r.audio_streams@ == streams@,
            self.languages.well_formed() ==> views(r.languages@).no_duplicates(),
    {
        let languages = self.languages_from_streams(&streams);
        proof {
            if self.languages.well_formed() {
                lemma_detected_keys_distinct(self.languages.definitions@, streams@, self.languages.definitions@.len() as int);
            }
        }
        let is_multi_audio = languages.len() >= 2;
        DetectionResult { languages, is_multi_audio, audio_streams: streams }
    }

    /// True if any stream is a usable base track for `target`.
    pub fn has_base_audio_track(&self, streams: &Vec<AudioStream>, target: &str) -> (r: bool)
        requires
            self.languages.well_formed(),
        ensures
            r == exists|i: int| 0 <= i < streams@.len() && is_base_track(self.languages, #[trigger] streams@[i], target@),
    {
        let mut i: usize = 0;
        while i < streams.len()
            invariant
                self.languages.well_formed(),
                i <= streams@.len(),
                forall|j: int| 0 <= j < i ==> !is_base_track(self.languages, #[trigger] streams@[j], target@),
            decreases streams@.len() - i,
        {
            let s = &streams[i];
            let lang_ok = match &s.language {
                None => true,
                Some(code) => {
                    let u = und_str();
                    str_eq_ignore_ascii_case(code.as_str(), u.as_str()) || self.code_matches_key(code.as_str(), target)
                },
            };
            let channels_ok = match s.channels {
                None => true,
                Some(c) => c <= 6,
            };
            if lang_ok && !s.is_commentary && channels_ok {
                return true;
            }
            i = i + 1;
        }
        false
    }
}

} // verus!
