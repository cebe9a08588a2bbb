use std::time::Duration;

use multilinguarr::client::http::{
    classify_status, delete_movie_endpoint, episode_files_endpoint, movie_by_tmdb_endpoint,
    series_by_tvdb_endpoint, RetryPolicy,
};
use multilinguarr::client::ArrError;
use multilinguarr::config::{InstanceConfig, InstanceKind, LanguageDefinition, LanguagesConfig, LinkStrategy};
use multilinguarr::detection::ffprobe::{binary_candidates, is_executable, judge_exit, SystemFfprobe};
use multilinguarr::detection::{AudioStream, DetectionError, LanguageDetector};
use multilinguarr::jellyfin::error::refresh_outcome;
use multilinguarr::jellyfin::{debounce_step, DebounceState, JellyfinError, MediaServer, NoopMediaServer, PumpAction, PumpEvent};
use multilinguarr::reconcile::walk::{
    episode_label, episode_relative_path, movie_label, plan_target, regenerate_action, TargetPlan,
    WalkEvent,
};
use multilinguarr::reconcile::{
    conflict_outcome, episode_dedup_key, is_media_file, resolve_targets, sort_languages, Conflict,
    RegenerateResult,
};
use multilinguarr::link::DedupVerdict;
use multilinguarr::text::{join_strings, parse_unsigned_exec, sort_strings, str_contains, u64_to_decimal};
use multilinguarr::time::backoff_delay;

fn languages() -> LanguagesConfig {
    LanguagesConfig {
        primary: "fr".to_owned(),
        alternates: vec!["en".to_owned()],
        definitions: vec![
            (
                "fr".to_owned(),
                LanguageDefinition {
                    iso_639_1: vec!["fr".to_owned()],
                    iso_639_2: vec!["fra".to_owned(), "fre".to_owned()],
                    radarr_id: 2,
                    sonarr_id: 2,
                },
            ),
            (
                "en".to_owned(),
                LanguageDefinition {
                    iso_639_1: vec!["en".to_owned()],
                    iso_639_2: vec!["eng".to_owned()],
                    radarr_id: 1,
                    sonarr_id: 1,
                },
            ),
        ],
    }
}

fn stream(lang: Option<&str>, channels: Option<u32>, commentary: bool) -> AudioStream {
    AudioStream { language: lang.map(str::to_owned), channels, is_commentary: commentary }
}

fn inst(name: &str, kind: InstanceKind, lang: &str) -> InstanceConfig {
    InstanceConfig {
        name: name.to_owned(),
        kind,
        language: lang.to_owned(),
        url: "u".to_owned(),
        api_key: "k".to_owned(),
        storage_path: format!("/storage/{name}"),
        library_path: format!("/library/{name}"),
        link_strategy: LinkStrategy::Symlink,
        propagate_delete: true,
    }
}

#[test]
fn detector_finds_configured_languages() {
    let d = LanguageDetector::new(languages());
    let streams = vec![stream(Some("eng"), Some(2), false), stream(Some("FRE"), Some(6), false)];
    let langs = d.languages_from_streams(&streams);
    assert_eq!(langs, vec!["fr".to_owned(), "en".to_owned()]);
    let r = d.detection_from_streams(streams);
    assert!(r.is_multi_audio);
    let only_und = vec![stream(Some("und"), None, false)];
    assert!(d.languages_from_streams(&only_und).is_empty());
    assert!(d.code_matches_key("FRA", "fr"));
    assert!(!d.code_matches_key("eng", "fr"));
}

#[test]
fn detector_timeouts() {
    assert_eq!(LanguageDetector::new(languages()).ffprobe_timeout_ms, 30_000);
    assert_eq!(LanguageDetector::with_timeout(languages(), 1_500).ffprobe_timeout_ms, 1_500);
}

#[test]
fn base_track_gate() {
    let d = LanguageDetector::new(languages());
    let ok = vec![stream(Some("fre"), Some(6), false)];
    assert!(d.has_base_audio_track(&ok, "fr"));
    let atmos = vec![stream(Some("fre"), Some(8), false)];
    assert!(!d.has_base_audio_track(&atmos, "fr"));
    let commentary = vec![stream(Some("fre"), Some(2), true)];
    assert!(!d.has_base_audio_track(&commentary, "fr"));
}

#[test]
fn ffprobe_location() {
    let c = binary_candidates("/usr/bin::/opt/bin/", "ffprobe");
    assert_eq!(c, vec!["/usr/bin/ffprobe".to_owned(), "ffprobe".to_owned(), "/opt/bin/ffprobe".to_owned()]);
    let found = SystemFfprobe::locate(&c, &vec![false, false, true]).unwrap();
    assert_eq!(found.binary_path(), "/opt/bin/ffprobe");
    assert!(SystemFfprobe::locate(&c, &vec![false, false, false]).is_none());
    assert_eq!(SystemFfprobe::with_path("/x/ffprobe".to_owned()).binary_path(), "/x/ffprobe");
    assert!(is_executable(true, 0o755));
    assert!(!is_executable(true, 0o644));
    assert!(!is_executable(false, 0o755));
}

#[test]
fn ffprobe_exit_judged() {
    assert!(judge_exit("/f".to_owned(), true, Some(0), String::new()).is_ok());
    let e = judge_exit("/f".to_owned(), false, None, "bad".to_owned()).unwrap_err();
    assert!(matches!(e, DetectionError::FfprobeExit { status: -1, .. }));
}

#[test]
fn debouncer_collapses_bursts() {
    let mut s = DebounceState::Idle;
    let mut fires = 0;
    for e in [PumpEvent::Trigger, PumpEvent::Trigger, PumpEvent::Trigger, PumpEvent::WindowElapsed] {
        let (next, action) = debounce_step(s, e);
        if action == PumpAction::Fire {
            fires += 1;
        }
        s = next;
    }
    assert_eq!(fires, 1);
    assert_eq!(s, DebounceState::Idle);
    assert_eq!(debounce_step(DebounceState::Waiting, PumpEvent::Cancelled), (DebounceState::Stopped, PumpAction::Exit));
    assert_eq!(debounce_step(DebounceState::Idle, PumpEvent::ChannelClosed).1, PumpAction::Exit);
    assert_eq!(debounce_step(DebounceState::Idle, PumpEvent::Trigger), (DebounceState::Waiting, PumpAction::RestartWindow));
}

#[test]
fn refresh_status_and_noop() {
    assert!(refresh_outcome(204).is_ok());
    assert!(matches!(refresh_outcome(401), Err(JellyfinError::Status { status: 401 })));
    NoopMediaServer.refresh();
}

#[test]
fn resolve_targets_mirror_import() {
    let all = vec![
        inst("radarr-fr", InstanceKind::Radarr, "fr"),
        inst("radarr-en", InstanceKind::Radarr, "en"),
        inst("sonarr-en", InstanceKind::Sonarr, "en"),
    ];
    let multi = vec!["fr".to_owned(), "en".to_owned()];
    assert_eq!(resolve_targets(0, &all, &multi, "fr"), vec![0, 1]);
    assert_eq!(resolve_targets(1, &all, &multi, "fr"), vec![1]);
    assert!(resolve_targets(1, &all, &vec!["fr".to_owned()], "fr").is_empty());
}

#[test]
fn reconcile_helpers() {
    assert_eq!(sort_languages(&vec!["fr".to_owned(), "en".to_owned()]), vec!["en".to_owned(), "fr".to_owned()]);
    assert!(is_media_file("/a/b/movie.mkv"));
    assert!(!is_media_file("/a/b/movie.MKV"));
    assert!(is_media_file("x.mp4"));
    assert!(!is_media_file("/a/b/movie.nfo"));
    assert!(!is_media_file("/a/b/mkv"));
    assert_eq!(episode_dedup_key(Some("Show/Season 01/Show.S01E02.mkv")), Some((1, 2)));
    assert_eq!(episode_dedup_key(None), None);
    assert!(matches!(conflict_outcome(Some("/x".to_owned()), DedupVerdict::Skip), Conflict::Skip));
    assert!(matches!(conflict_outcome(Some("/x".to_owned()), DedupVerdict::Replace), Conflict::Proceed(Some(p)) if p == "/x"));
    assert!(matches!(conflict_outcome(None, DedupVerdict::Skip), Conflict::Proceed(None)));
}

#[test]
fn walk_bookkeeping() {
    let mut r = RegenerateResult::new(true);
    r.record(WalkEvent::Scanned);
    r.record(WalkEvent::NoLanguages);
    r.record(WalkEvent::StorageUnreadable { instance: "radarr-fr".to_owned(), message: "denied".to_owned() });
    let target = inst("radarr-en", InstanceKind::Radarr, "en");
    let a = regenerate_action(&target, "/storage/radarr-fr/Heat", "Heat", None, vec!["en".to_owned()], false);
    assert_eq!(a.target, "/library/radarr-en/Heat");
    assert_eq!(a.kind, "movie");
    r.record(WalkEvent::Linked(a));
    r.record(WalkEvent::LinkFailed {
        source: "radarr-fr".to_owned(),
        display: "Heat".to_owned(),
        target: "radarr-en".to_owned(),
        message: "exists".to_owned(),
    });
    assert_eq!(r.scanned, 1);
    assert_eq!(r.skipped, 1);
    assert_eq!(r.linked, 1);
    assert_eq!(r.actions.len(), 1);
    assert_eq!(r.errors, vec!["radarr-fr: cannot read storage: denied".to_owned(), "radarr-fr/Heat -> radarr-en: exists".to_owned()]);
    let e = regenerate_action(&target, "/s", "Show/S01/e.mkv", Some("Show/S01/e.mkv"), vec![], true);
    assert_eq!(e.kind, "episode");
    assert_eq!(e.target, "/library/radarr-en/Show/S01/e.mkv");
    assert!(matches!(plan_target(Conflict::Skip, false), TargetPlan::Skip));
    assert!(matches!(plan_target(Conflict::Proceed(None), true), TargetPlan::DryRun));
    assert!(matches!(plan_target(Conflict::Proceed(Some("/old".to_owned())), false), TargetPlan::Link { evict: Some(p) } if p == "/old"));
    assert_eq!(episode_relative_path("Show", "Season 01", "e.mkv"), "Show/Season 01/e.mkv");
    assert_eq!(episode_label("sonarr-fr", "Show", "Season 01", "e.mkv"), "sonarr-fr/Show/Season 01/e.mkv");
    assert_eq!(movie_label("radarr-fr", "Heat"), "radarr-fr/Heat");
}

#[test]
fn text_helpers() {
    assert_eq!(parse_unsigned_exec("42", 100), Some(42));
    assert_eq!(parse_unsigned_exec("+42", 100), Some(42));
    assert_eq!(parse_unsigned_exec("101", 100), None);
    assert_eq!(parse_unsigned_exec("4a", 100), None);
    assert_eq!(parse_unsigned_exec("+", 100), None);
    assert_eq!(parse_unsigned_exec("", 100), None);
    assert_eq!(parse_unsigned_exec("18446744073709551615", u64::MAX), Some(u64::MAX));
    assert_eq!(parse_unsigned_exec("18446744073709551616", u64::MAX), None);
    assert!(str_contains("FOREIGN KEY constraint failed", "KEY con"));
    assert!(str_contains("abc", ""));
    assert!(!str_contains("ab", "abc"));
    assert_eq!(join_strings(&vec!["a".to_owned(), "b".to_owned(), "c".to_owned()], ", "), "a, b, c");
    assert_eq!(join_strings(&vec![], ", "), "");
    assert_eq!(u64_to_decimal(0), "0");
    assert_eq!(u64_to_decimal(1200), "1200");
    assert_eq!(sort_strings(&vec!["b".to_owned(), "ab".to_owned(), "a".to_owned()]), vec!["a".to_owned(), "ab".to_owned(), "b".to_owned()]);
}

#[test]
fn backoff_saturates() {
    assert_eq!(backoff_delay(Duration::from_millis(200), Duration::from_secs(5), 1), Duration::from_millis(200));
    assert_eq!(backoff_delay(Duration::from_millis(200), Duration::from_secs(5), 3), Duration::from_millis(800));
    assert_eq!(backoff_delay(Duration::from_millis(200), Duration::from_secs(5), 10), Duration::from_secs(5));
    assert_eq!(backoff_delay(Duration::MAX, Duration::MAX, 40), Duration::MAX);
}

#[test]
fn arr_http_rules() {
    let p = RetryPolicy::defaults();
    assert_eq!(p.max_attempts, 3);
    assert_eq!(p.backoff_for(2), Duration::from_millis(400));
    assert!(classify_status("radarr-fr", "/api/v3/movie", 201, String::new()).is_ok());
    let e = classify_status("radarr-fr", "/api/v3/movie", 404, String::new()).unwrap_err();
    assert!(matches!(e, ArrError::NotFound { .. }));
    let e = classify_status("radarr-fr", "/api/v3/movie", 409, "dup".to_owned()).unwrap_err();
    assert!(matches!(&e, ArrError::Conflict { body, .. } if body == "dup"));
    assert!(!e.is_transient());
    let e = classify_status("radarr-fr", "/api/v3/movie", 503, String::new()).unwrap_err();
    assert!(e.is_transient());
    assert!(p.should_retry(&e, 1));
    assert!(!p.should_retry(&e, 3));
    let e = classify_status("radarr-fr", "/api/v3/movie", 400, String::new()).unwrap_err();
    assert!(!e.is_transient());
    assert_eq!(movie_by_tmdb_endpoint(949), "/api/v3/movie?tmdbId=949");
    assert_eq!(series_by_tvdb_endpoint(7), "/api/v3/series?tvdbId=7");
    assert_eq!(delete_movie_endpoint(12, true), "/api/v3/movie/12?deleteFiles=true");
    assert_eq!(episode_files_endpoint(3), "/api/v3/episodefile?seriesId=3");
}
