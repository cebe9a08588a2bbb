use multilinguarr::client::{QualityProfile, RootFolder};
use multilinguarr::config::{InstanceConfig, InstanceKind, LinkStrategy};
use multilinguarr::detection::DetectionResult;
use multilinguarr::handler::cross_instance::{
    add_step, AddStepAction, AddStepEvent, add_movie_request, skip_own_language_original, AddBlocked, AddOutcomeLabel,
};
use multilinguarr::handler::delete::{
    folder_name_from_webhook, plan_radarr_movie_delete, plan_radarr_movie_file_delete,
    plan_sonarr_episode_file_delete, should_unlink, unlink_rule, DeleteScope, UnlinkRule,
};
use multilinguarr::handler::error::HandlerError;
use multilinguarr::handler::import::{plan_download, radarr_import_paths, sonarr_import_paths};
use multilinguarr::handler::registry::{find_instance, outcome_label, outcome_of, route_job, JobRoute};
use multilinguarr::handler::targets::{propagate_add_targets, propagate_delete_targets};
use multilinguarr::queue::ProcessOutcome;
use multilinguarr::webhook::{
    RadarrDownload, RadarrMovieDelete, RadarrMovieFileDelete, RadarrMovieFileRef, RadarrMovieRef,
    SonarrDownload, SonarrEpisodeFileDelete, SonarrEpisodeFileRef, SonarrEpisodeRef, SonarrSeriesRef,
};

fn inst(name: &str, kind: InstanceKind, lang: &str) -> InstanceConfig {
    InstanceConfig {
        name: name.to_owned(),
        kind,
        language: lang.to_owned(),
        url: "http://unused".to_owned(),
        api_key: "k".to_owned(),
        storage_path: format!("/srv/storage/{name}"),
        library_path: format!("/srv/library/{name}"),
        link_strategy: LinkStrategy::Symlink,
        propagate_delete: true,
    }
}

fn radarr_trio() -> Vec<InstanceConfig> {
    vec![
        inst("radarr-fr", InstanceKind::Radarr, "fr"),
        inst("radarr-en", InstanceKind::Radarr, "en"),
        inst("radarr-es", InstanceKind::Radarr, "es"),
        inst("sonarr-fr", InstanceKind::Sonarr, "fr"),
    ]
}

fn detection(langs: &[&str], multi: bool) -> DetectionResult {
    DetectionResult {
        languages: langs.iter().map(|s| (*s).to_owned()).collect(),
        is_multi_audio: multi,
        audio_streams: vec![],
    }
}

#[test]
fn missing_field_is_permanent() {
    let err = HandlerError::MissingField("movie");
    assert!(!err.is_transient());
}

#[test]
fn unknown_instance_is_permanent() {
    let err = HandlerError::UnknownInstance("nope".to_owned());
    assert!(!err.is_transient());
}

#[test]
fn find_instance_by_name() {
    let all = radarr_trio();
    assert_eq!(find_instance(&all, "radarr-en").unwrap(), 1);
    assert!(matches!(find_instance(&all, "lidarr"), Err(HandlerError::UnknownInstance(n)) if n == "lidarr"));
}

#[test]
fn jobs_routed_by_kind() {
    assert_eq!(route_job("radarr_webhook").unwrap(), JobRoute::Radarr);
    assert_eq!(route_job("sonarr_webhook").unwrap(), JobRoute::Sonarr);
    let e = route_job("lidarr_webhook").unwrap_err();
    assert!(matches!(&e, HandlerError::Decode(m) if m == "unknown job kind: lidarr_webhook"));
    assert!(!e.is_transient());
}

#[test]
fn job_outcomes_and_labels() {
    let ok: Result<(), HandlerError> = Ok(());
    let o = outcome_of(&ok, "x".to_owned());
    assert!(matches!(o, ProcessOutcome::Success));
    assert_eq!(outcome_label(&o), "success");
    let bad: Result<(), HandlerError> = Err(HandlerError::MissingField("movie"));
    let o = outcome_of(&bad, "missing".to_owned());
    assert!(matches!(&o, ProcessOutcome::Permanent(m) if m == "missing"));
    assert_eq!(outcome_label(&o), "permanent");
    assert_eq!(outcome_label(&ProcessOutcome::Transient("t".to_owned())), "transient");
}

#[test]
fn primary_multi_audio_links_every_carried_language() {
    let all = radarr_trio();
    let plan = plan_download(&all, 0, "fr", &detection(&["fr", "en"], true), false, InstanceKind::Radarr);
    assert_eq!(plan.link_targets, vec![0, 1]);
    assert_eq!(plan.add_targets, vec![2]);
    assert!(plan.unlink_targets.is_empty());
    assert!(!plan.wrong_language);
}

#[test]
fn untagged_file_falls_back_to_importer_language() {
    let all = radarr_trio();
    let plan = plan_download(&all, 1, "fr", &detection(&[], false), true, InstanceKind::Radarr);
    assert!(plan.fell_back);
    assert_eq!(plan.languages, vec!["en".to_owned()]);
    assert_eq!(plan.link_targets, vec![1]);
    assert_eq!(plan.unlink_targets, vec![1]);
    assert!(plan.add_targets.is_empty());
}

#[test]
fn alternate_without_its_language_links_nothing() {
    let all = radarr_trio();
    let plan = plan_download(&all, 2, "fr", &detection(&["fr"], false), false, InstanceKind::Radarr);
    assert!(plan.wrong_language);
    assert!(plan.link_targets.is_empty());
}

#[test]
fn add_and_delete_fanout() {
    let all = radarr_trio();
    assert_eq!(propagate_add_targets(&all, &all[0], &vec!["fr".to_owned()], InstanceKind::Radarr), vec![1, 2]);
    assert_eq!(propagate_delete_targets(&all, &all[0], InstanceKind::Radarr), vec![1, 2]);
    let mut quiet = all[0].clone();
    quiet.propagate_delete = false;
    assert!(propagate_delete_targets(&all, &quiet, InstanceKind::Radarr).is_empty());
}

#[test]
fn skipped_original_counts_every_target() {
    let all = radarr_trio();
    let recs = skip_own_language_original(&all, &all[0], &vec![1, 2]);
    assert_eq!(recs.len(), 2);
    assert_eq!(recs[0].source, "radarr-fr");
    assert_eq!(recs[1].target, "radarr-es");
    assert_eq!(recs[0].outcome, AddOutcomeLabel::SkippedOriginal);
    assert_eq!(AddOutcomeLabel::SkippedOriginal.label(), "skipped_original_language");
    assert_eq!(AddOutcomeLabel::AlreadyExisted.label(), "already_existed");
}

#[test]
fn add_movie_request_uses_first_profile_and_folder() {
    let movie = RadarrMovieRef { id: 1, title: "Heat".to_owned(), year: 1995, tmdb_id: 949, folder_path: None };
    let profiles = vec![QualityProfile { id: 4, name: "HD".to_owned() }, QualityProfile { id: 6, name: "UHD".to_owned() }];
    let folders = vec![RootFolder { path: "/movies".to_owned() }];
    let req = add_movie_request(&movie, &profiles, &folders).unwrap();
    assert_eq!(req.quality_profile_id, 4);
    assert_eq!(req.root_folder_path, "/movies");
    assert_eq!(req.tmdb_id, 949);
    assert!(req.monitored);
    assert!(matches!(add_movie_request(&movie, &vec![], &folders), Err(AddBlocked::NoQualityProfile)));
    assert!(matches!(add_movie_request(&movie, &profiles, &vec![]), Err(AddBlocked::NoRootFolder)));
}

#[test]
fn radarr_import_reads_paths() {
    let ev = RadarrDownload {
        movie: Some(RadarrMovieRef {
            id: 1,
            title: "Heat".to_owned(),
            year: 1995,
            tmdb_id: 949,
            folder_path: Some("/srv/media/movies/Heat (1995)".to_owned()),
        }),
        movie_file: Some(RadarrMovieFileRef {
            id: 2,
            path: Some("/srv/media/movies/Heat (1995)/heat.mkv".to_owned()),
            relative_path: None,
        }),
        is_upgrade: false,
    };
    let imp = radarr_import_paths(&ev, "/srv/media").unwrap();
    assert_eq!(imp.folder_name, "Heat (1995)");
    assert_eq!(imp.file_path, "/srv/media/movies/Heat (1995)/heat.mkv");
    assert!(matches!(radarr_import_paths(&ev, "/other"), Err(HandlerError::MalformedPath(_))));
    let missing = RadarrDownload { movie: None, movie_file: None, is_upgrade: false };
    assert!(matches!(radarr_import_paths(&missing, "/srv/media"), Err(HandlerError::MissingField("movie"))));
}

#[test]
fn sonarr_import_reads_paths() {
    let ev = SonarrDownload {
        series: Some(SonarrSeriesRef { id: 1, title: "Show".to_owned(), tvdb_id: 7, path: Some("/srv/media/tv/Show".to_owned()) }),
        episodes: vec![SonarrEpisodeRef { id: 3, episode_number: 4, season_number: 2 }],
        episode_file: Some(SonarrEpisodeFileRef {
            id: 9,
            path: Some("/srv/media/tv/Show/Season 02/Show.S02E04.mkv".to_owned()),
            relative_path: Some("Season 02/Show.S02E04.mkv".to_owned()),
        }),
        is_upgrade: false,
    };
    let imp = sonarr_import_paths(&ev, "/srv/media").unwrap();
    assert_eq!(imp.relative_path, "Show/Season 02/Show.S02E04.mkv");
    assert_eq!(imp.episode, Some((2, 4)));
}

#[test]
fn delete_plans() {
    let movie = RadarrMovieRef { id: 1, title: "Heat".to_owned(), year: 1995, tmdb_id: 949, folder_path: Some("/srv/movies/Heat (1995)".to_owned()) };
    let ev = RadarrMovieDelete { movie: Some(movie.clone()), deleted_files: true };
    let plan = plan_radarr_movie_delete(&ev, true).unwrap().unwrap();
    assert_eq!(plan.relative, "Heat (1995)");
    assert_eq!(plan.scope, DeleteScope::Everywhere);
    assert!(plan.propagate);
    let plan = plan_radarr_movie_delete(&ev, false).unwrap().unwrap();
    assert_eq!(plan.scope, DeleteScope::LocalOnly);
    assert!(!plan.propagate);
    let keep = RadarrMovieDelete { movie: Some(movie.clone()), deleted_files: false };
    assert!(plan_radarr_movie_delete(&keep, true).unwrap().is_none());
    let file = RadarrMovieFileDelete { movie: Some(movie) };
    assert!(!plan_radarr_movie_file_delete(&file, true).unwrap().unwrap().propagate);
    let ep = SonarrEpisodeFileDelete { series: Some(SonarrSeriesRef { id: 1, title: "S".to_owned(), tvdb_id: 2, path: Some("/tv/S".to_owned()) }), episode_file: None };
    assert!(matches!(plan_sonarr_episode_file_delete(&ep, true), Err(HandlerError::MissingField("episode_file"))));
    assert!(matches!(folder_name_from_webhook(None), Err(HandlerError::MissingField(_))));
}

#[test]
fn unlink_rules() {
    let all = radarr_trio();
    assert_eq!(unlink_rule(&all[0], &all[0], true), UnlinkRule::Always);
    assert_eq!(unlink_rule(&all[1], &all[0], true), UnlinkRule::IfResolvesIntoSource);
    assert!(should_unlink(UnlinkRule::Always, false, true));
    assert!(!should_unlink(UnlinkRule::IfResolvesIntoSource, false, false));
    assert!(!should_unlink(UnlinkRule::UnlessLastHardlink, true, true));
}

#[test]
fn sibling_add_steps() {
    assert_eq!(add_step(AddStepEvent::Looked { present: true }), AddStepAction::Next(Some(AddOutcomeLabel::AlreadyExisted)));
    assert_eq!(add_step(AddStepEvent::Looked { present: false }), AddStepAction::ReadSettings);
    assert_eq!(add_step(AddStepEvent::Settings { usable: false }), AddStepAction::Next(None));
    assert_eq!(add_step(AddStepEvent::Settings { usable: true }), AddStepAction::Add);
    assert_eq!(add_step(AddStepEvent::Created), AddStepAction::Next(Some(AddOutcomeLabel::Created)));
    assert_eq!(add_step(AddStepEvent::AlreadyThere), AddStepAction::Next(Some(AddOutcomeLabel::AlreadyExisted)));
    assert_eq!(add_step(AddStepEvent::Failed { during_add: true }), AddStepAction::Abort(Some(AddOutcomeLabel::Error)));
    assert_eq!(add_step(AddStepEvent::Failed { during_add: false }), AddStepAction::Abort(None));
}
