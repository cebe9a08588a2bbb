use std::time::Duration;

use multilinguarr::config::{InstanceConfig, InstanceKind, LanguageDefinition, LanguagesConfig, LinkStrategy};
use multilinguarr::detection::{AudioStream, DetectionResult, LanguageDetector};
use multilinguarr::handler::import::{plan_download, DownloadPlan};
use multilinguarr::jellyfin::{debounce_step, DebounceState, MediaServer, NoopMediaServer, PumpAction, PumpEvent};
use multilinguarr::handler::delete::{
    plan_radarr_movie_delete, plan_radarr_movie_file_delete, should_unlink, unlink_rule, UnlinkRule,
};
use multilinguarr::link::manager::{
    hardlink_step, is_last_hardlink_rule, prune_may_remove, reject_unsafe_relative, symlink_step,
    ExistingEntry,
};
use multilinguarr::link::{dedup_verdict, DedupVerdict, LinkAction, LinkError};
use multilinguarr::queue::job::{decide_ack, stats_from_rows};
use multilinguarr::queue::{dispatch_step, Ack, DispatchAction, DispatchEvent, ProcessOutcome, RetryPolicy};
use multilinguarr::reconcile::{is_media_file, resolve_targets};
use multilinguarr::webhook::{RadarrMovieDelete, RadarrMovieFileDelete, RadarrMovieRef};

fn inst(name: &str, kind: InstanceKind, lang: &str) -> InstanceConfig {
    InstanceConfig {
        name: name.to_owned(),
        kind,
        language: lang.to_owned(),
        url: "http://unused".to_owned(),
        api_key: "k".to_owned(),
        storage_path: format!("/tmp/{name}-storage"),
        library_path: format!("/tmp/{name}-library"),
        link_strategy: LinkStrategy::Symlink,
        propagate_delete: true,
    }
}

/// Primary (fr) first, alternate (en) second, as in a two-instance setup.
fn pair(kind: InstanceKind) -> Vec<InstanceConfig> {
    let prefix = if kind == InstanceKind::Radarr { "radarr" } else { "sonarr" };
    vec![inst(&format!("{prefix}-fr"), kind, "fr"), inst(&format!("{prefix}-en"), kind, "en")]
}

fn detected(langs: &[&str]) -> DetectionResult {
    DetectionResult {
        languages: langs.iter().map(|s| (*s).to_owned()).collect(),
        is_multi_audio: langs.len() >= 2,
        audio_streams: vec![],
    }
}

fn plan(kind: InstanceKind, src: usize, langs: &[&str], upgrade: bool) -> DownloadPlan {
    plan_download(&pair(kind), src, "fr", &detected(langs), upgrade, kind)
}

// ---------- import matrix ----------

#[test]
fn radarr_primary_multi_audio_links_into_both_libraries() {
    let p = plan(InstanceKind::Radarr, 0, &["fr", "en"], false);
    assert_eq!(p.link_targets, vec![0, 1]);
    assert!(p.add_targets.is_empty());
}

#[test]
fn radarr_primary_single_language_links_only_primary_library() {
    let p = plan(InstanceKind::Radarr, 0, &["fr"], false);
    assert_eq!(p.link_targets, vec![0]);
}

#[test]
fn radarr_alternate_multi_audio_only_links_alternate_library() {
    let p = plan(InstanceKind::Radarr, 1, &["fr", "en"], false);
    assert_eq!(p.link_targets, vec![1]);
    assert!(p.add_targets.is_empty());
}

#[test]
fn radarr_alternate_single_language_links_alternate_only() {
    let p = plan(InstanceKind::Radarr, 1, &["en"], false);
    assert_eq!(p.link_targets, vec![1]);
}

#[test]
fn sonarr_primary_multi_audio_links_episode_into_both_libraries() {
    let p = plan(InstanceKind::Sonarr, 0, &["fr", "en"], false);
    assert_eq!(p.link_targets, vec![0, 1]);
}

#[test]
fn sonarr_primary_single_language_links_only_primary_library() {
    let p = plan(InstanceKind::Sonarr, 0, &["fr"], false);
    assert_eq!(p.link_targets, vec![0]);
}

#[test]
fn sonarr_alternate_multi_audio_links_alternate_only() {
    let p = plan(InstanceKind::Sonarr, 1, &["fr", "en"], false);
    assert_eq!(p.link_targets, vec![1]);
}

#[test]
fn sonarr_alternate_single_language_links_alternate_only() {
    let p = plan(InstanceKind::Sonarr, 1, &["en"], false);
    assert_eq!(p.link_targets, vec![1]);
}

#[test]
fn radarr_is_upgrade_unlinks_then_relinks_for_primary_multi() {
    let p = plan(InstanceKind::Radarr, 0, &["fr", "en"], true);
    assert_eq!(p.unlink_targets, vec![0, 1]);
    assert_eq!(p.link_targets, vec![0, 1]);
}

#[test]
fn radarr_undetermined_language_assumes_instance_language_and_propagates() {
    let p = plan(InstanceKind::Radarr, 0, &[], false);
    assert!(p.fell_back);
    assert_eq!(p.languages, vec!["fr".to_owned()]);
    assert_eq!(p.link_targets, vec![0]);
    assert_eq!(p.add_targets, vec![1]);
}

#[test]
fn radarr_primary_single_language_propagates_add_to_alternate() {
    let p = plan(InstanceKind::Radarr, 0, &["fr"], false);
    assert_eq!(p.add_targets, vec![1]);
}

// ---------- regeneration targets ----------

#[test]
fn resolve_targets_multi_audio_returns_matching_instances() {
    let all = vec![
        inst("radarr-fr", InstanceKind::Radarr, "fr"),
        inst("radarr-en", InstanceKind::Radarr, "en"),
        inst("sonarr-fr", InstanceKind::Sonarr, "fr"),
    ];
    let targets = resolve_targets(0, &all, &vec!["fr".to_owned(), "en".to_owned()], "fr");
    assert_eq!(targets.len(), 2);
    let names: Vec<&str> = targets.iter().map(|&t| all[t].name.as_str()).collect();
    assert!(names.contains(&"radarr-fr"));
    assert!(names.contains(&"radarr-en"));
}

#[test]
fn resolve_targets_single_language_returns_source_only() {
    let all = vec![inst("radarr-fr", InstanceKind::Radarr, "fr"), inst("radarr-en", InstanceKind::Radarr, "en")];
    let targets = resolve_targets(0, &all, &vec!["fr".to_owned()], "fr");
    assert_eq!(targets.len(), 1);
    assert_eq!(all[targets[0]].name, "radarr-fr");
}

// ---------- refresh debouncing ----------

/// Feed `events` to a fresh debouncer; the number of refreshes fired and
/// whether it ended.
fn pump(events: &[PumpEvent]) -> (u32, bool) {
    let mut state = DebounceState::Idle;
    let mut fired = 0;
    for &e in events {
        let (next, action) = debounce_step(state, e);
        if action == PumpAction::Fire {
            fired += 1;
        }
        state = next;
    }
    (fired, state == DebounceState::Stopped)
}

#[test]
fn debounce_pump_collapses_a_burst_into_one_call() {
    let mut events = vec![PumpEvent::Trigger; 20];
    events.push(PumpEvent::WindowElapsed);
    assert_eq!(pump(&events), (1, false));
    events.push(PumpEvent::WindowElapsed);
    assert_eq!(pump(&events).0, 1);
}

#[test]
fn debounce_pump_resets_on_every_trigger() {
    // Each trigger restarts the window; nothing fires until it elapses.
    assert_eq!(debounce_step(DebounceState::Waiting, PumpEvent::Trigger), (DebounceState::Waiting, PumpAction::RestartWindow));
    assert_eq!(pump(&[PumpEvent::Trigger, PumpEvent::Trigger]).0, 0);
    assert_eq!(pump(&[PumpEvent::Trigger, PumpEvent::Trigger, PumpEvent::WindowElapsed]).0, 1);
}

#[test]
fn debounce_pump_fires_multiple_times_for_separate_bursts() {
    let events = [PumpEvent::Trigger, PumpEvent::WindowElapsed, PumpEvent::Trigger, PumpEvent::WindowElapsed];
    assert_eq!(pump(&events).0, 2);
}

#[test]
fn debounce_pump_exits_on_cancel_without_firing_pending_work() {
    let events = [PumpEvent::Trigger, PumpEvent::Cancelled, PumpEvent::WindowElapsed];
    assert_eq!(pump(&events), (0, true));
}

#[test]
fn noop_media_server_refresh_is_a_no_op() {
    let server = NoopMediaServer;
    server.refresh();
    server.refresh();
}

// ---------- link decisions ----------

#[test]
fn is_last_hardlink_returns_false_for_symlink_strategy() {
    assert!(!is_last_hardlink_rule(LinkStrategy::Symlink, true, 1));
}

#[test]
fn is_last_hardlink_returns_false_when_source_still_exists() {
    assert!(!is_last_hardlink_rule(LinkStrategy::Hardlink, true, 2));
}

#[test]
fn is_last_hardlink_returns_true_after_source_removed() {
    assert!(is_last_hardlink_rule(LinkStrategy::Hardlink, true, 1));
}

#[test]
fn is_last_hardlink_returns_false_when_path_missing() {
    assert!(!is_last_hardlink_rule(LinkStrategy::Hardlink, false, 0));
}

#[test]
fn link_movie_rejects_absolute_path() {
    assert!(matches!(reject_unsafe_relative("/etc"), Err(LinkError::InvalidRelativePath(_))));
}

#[test]
fn link_episode_rejects_parent_traversal() {
    assert!(matches!(reject_unsafe_relative("Show/../../etc/passwd"), Err(LinkError::InvalidRelativePath(_))));
}

#[test]
fn symlink_movie_is_idempotent_on_repeat() {
    let first = symlink_step(&ExistingEntry::Missing, "/s/Movie", "/l/Movie").unwrap();
    assert_eq!(first, LinkAction::Created);
    let again = symlink_step(&ExistingEntry::Symlink("/s/Movie".to_owned()), "/s/Movie", "/l/Movie").unwrap();
    assert_eq!(again, LinkAction::AlreadyPresent);
}

#[test]
fn symlink_refuses_to_overwrite_unrelated_target() {
    assert!(matches!(
        symlink_step(&ExistingEntry::Other, "/s/Movie", "/l/Movie"),
        Err(LinkError::AlreadyExists { .. })
    ));
    assert!(matches!(
        symlink_step(&ExistingEntry::Symlink("/elsewhere".to_owned()), "/s/Movie", "/l/Movie"),
        Err(LinkError::AlreadyExists { .. })
    ));
}

#[test]
fn hardlink_movie_is_idempotent_on_repeat() {
    assert_eq!(hardlink_step(false, false, "/s/m.mkv", "/l/m.mkv").unwrap(), LinkAction::Created);
    assert_eq!(hardlink_step(true, true, "/s/m.mkv", "/l/m.mkv").unwrap(), LinkAction::AlreadyPresent);
    assert!(hardlink_step(true, false, "/s/m.mkv", "/l/m.mkv").is_err());
}

#[test]
fn episode_unlink_prunes_empty_season_but_not_library_root() {
    assert!(prune_may_remove("/l/Show/Season 01", "/l"));
    assert!(prune_may_remove("/l/Show", "/l"));
    assert!(!prune_may_remove("/l", "/l"));
    assert!(!prune_may_remove("/l/", "/l"));
}

// ---------- delete decisions ----------

#[test]
fn radarr_movie_delete_skipped_when_deleted_files_false() {
    let movie = RadarrMovieRef { id: 1, title: "Keep".to_owned(), year: 2024, tmdb_id: 7, folder_path: Some("/s/Keep (2024)".to_owned()) };
    let ev = RadarrMovieDelete { movie: Some(movie), deleted_files: false };
    assert!(plan_radarr_movie_delete(&ev, true).unwrap().is_none());
}

#[test]
fn radarr_movie_file_delete_unlinks_primary_without_propagation() {
    let movie = RadarrMovieRef { id: 1, title: "File".to_owned(), year: 2024, tmdb_id: 7, folder_path: Some("/s/File (2024)".to_owned()) };
    let plan = plan_radarr_movie_file_delete(&RadarrMovieFileDelete { movie: Some(movie) }, true).unwrap().unwrap();
    assert_eq!(plan.relative, "File (2024)");
    assert!(!plan.propagate);
}

#[test]
fn storage_aware_alternate_link_to_foreign_storage_is_preserved_on_alt_delete() {
    let all = pair(InstanceKind::Radarr);
    // The alternate deletes; the primary's library entry is a symlink into
    // the primary's own storage, so it does not resolve into the deleter's.
    let rule = unlink_rule(&all[0], &all[1], true);
    assert_eq!(rule, UnlinkRule::IfResolvesIntoSource);
    assert!(!should_unlink(rule, false, false));
    // The deleter's own library entry always goes.
    assert!(should_unlink(unlink_rule(&all[1], &all[1], true), false, false));
}

// ---------- job acknowledgement ----------

fn tight_policy() -> RetryPolicy {
    RetryPolicy { max_attempts: 5, initial_backoff: Duration::from_millis(1), max_backoff: Duration::from_millis(2) }
}

#[test]
fn worker_pool_retries_transient_then_succeeds() {
    let p = tight_policy();
    for recorded in 0..2 {
        assert!(matches!(decide_ack(ProcessOutcome::Transient("t".to_owned()), recorded, 5, &p), Ack::Retry { .. }));
    }
    assert!(matches!(decide_ack(ProcessOutcome::Success, 2, 5, &p), Ack::Success));
}

#[test]
fn worker_pool_dead_letters_after_max_attempts() {
    let p = tight_policy();
    assert!(matches!(decide_ack(ProcessOutcome::Transient("t".to_owned()), 0, 3, &p), Ack::Retry { .. }));
    assert!(matches!(decide_ack(ProcessOutcome::Transient("t".to_owned()), 1, 3, &p), Ack::Retry { .. }));
    assert!(matches!(
        decide_ack(ProcessOutcome::Transient("t".to_owned()), 2, 3, &p),
        Ack::DeadLetter { message } if message == "t"
    ));
}

#[test]
fn worker_pool_marks_permanent_failure_immediately() {
    let p = tight_policy();
    assert!(matches!(
        decide_ack(ProcessOutcome::Permanent("p".to_owned()), 0, 5, &p),
        Ack::PermanentFailure { message } if message == "p"
    ));
}

#[test]
fn stats_counts_by_status() {
    let rows = vec![("pending".to_owned(), 2), ("completed".to_owned(), 1)];
    let stats = stats_from_rows(&rows).unwrap();
    assert_eq!(stats.pending, 2);
    assert_eq!(stats.completed, 1);
    assert_eq!(stats.claimed, 0);
}

// ---------- regeneration ----------

#[test]
fn regenerate_skips_non_media_files() {
    assert!(is_media_file("/s/Movie (2024)/movie.mkv"));
    assert!(!is_media_file("/s/Movie (2024)/movie.nfo"));
    assert!(!is_media_file("/s/Movie (2024)/poster.jpg"));
}

#[test]
fn detection_keys_are_distinct() {
    let def = |c1: &str, c2: &str| LanguageDefinition { iso_639_1: vec![c1.to_owned()], iso_639_2: vec![c2.to_owned()], radarr_id: 1, sonarr_id: 1 };
    let cfg = LanguagesConfig {
        primary: "fr".to_owned(),
        alternates: vec!["en".to_owned()],
        definitions: vec![("fr".to_owned(), def("fr", "fre")), ("en".to_owned(), def("en", "eng"))],
    };
    let s = |l: &str| AudioStream { language: Some(l.to_owned()), channels: None, is_commentary: false };
    let r = LanguageDetector::new(cfg).detection_from_streams(vec![s("fre"), s("fr"), s("eng"), s("FRE")]);
    assert_eq!(r.languages, vec!["fr".to_owned(), "en".to_owned()]);
}

#[test]
fn dispatcher_stops_on_cancel() {
    let events = [DispatchEvent::SlotAcquired, DispatchEvent::QueueEmpty, DispatchEvent::Cancelled, DispatchEvent::SlotAcquired];
    let mut taken = Vec::new();
    for e in events {
        let a = dispatch_step(e);
        taken.push(a);
        if a == DispatchAction::Stop {
            break;
        }
    }
    assert_eq!(taken, vec![DispatchAction::Claim, DispatchAction::ReleaseAndSleep, DispatchAction::Stop]);
}

#[test]
fn regenerate_dedupes_episode_links_regardless_of_walk_order() {
    let fr = inst("sonarr-fr", InstanceKind::Sonarr, "fr");
    let en = inst("sonarr-en", InstanceKind::Sonarr, "en");
    let de = inst("sonarr-de", InstanceKind::Sonarr, "de");
    // Library of the English instance; releases arrive from each instance.
    let walk = |order: &[&InstanceConfig]| -> String {
        let mut occupant: Option<&InstanceConfig> = None;
        for &src in order {
            match dedup_verdict(occupant, src, &en) {
                DedupVerdict::Skip => {}
                DedupVerdict::Link | DedupVerdict::Replace => occupant = Some(src),
            }
        }
        occupant.unwrap().name.clone()
    };
    for order in [
        vec![&fr, &en, &de],
        vec![&fr, &de, &en],
        vec![&en, &fr, &de],
        vec![&en, &de, &fr],
        vec![&de, &fr, &en],
        vec![&de, &en, &fr],
    ] {
        assert_eq!(walk(&order), "sonarr-en");
    }
}
