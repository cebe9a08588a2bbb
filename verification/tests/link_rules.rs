use multilinguarr::config::{InstanceConfig, InstanceKind, LinkStrategy};
use multilinguarr::link::error::libc_exdev;
use multilinguarr::link::manager::{
    hardlink_step, is_last_hardlink_rule, mirror_outcome, paths_equal, prune_may_remove,
    reject_unsafe_relative, symlink_step, ExistingEntry,
};
use multilinguarr::link::path::{
    path_components, path_file_name, path_join, path_starts_with, path_strip_prefix,
};
use multilinguarr::link::{
    dedup_verdict, parse_season_episode, DedupVerdict, IoErrorKind, LinkAction, LinkError,
    LinkManager,
};

fn inst(name: &str, lang: &str) -> InstanceConfig {
    InstanceConfig {
        name: name.to_owned(),
        kind: InstanceKind::Sonarr,
        language: lang.to_owned(),
        url: "u".to_owned(),
        api_key: "k".to_owned(),
        storage_path: format!("/srv/storage/{name}"),
        library_path: format!("/srv/library/{lang}"),
        link_strategy: LinkStrategy::Hardlink,
        propagate_delete: true,
    }
}

#[test]
fn season_episode_markers() {
    assert_eq!(parse_season_episode("Show.S02E05.1080p.mkv"), Some((2, 5)));
    assert_eq!(parse_season_episode("show.s10e123.mkv"), Some((10, 123)));
    assert_eq!(parse_season_episode("Movie (2024).mkv"), None);
    assert_eq!(parse_season_episode("SE01"), None);
}

#[test]
fn dedup_keeps_native_release() {
    let fr = inst("sonarr-fr", "fr");
    let en = inst("sonarr-en", "en");
    assert_eq!(dedup_verdict(None, &fr, &fr), DedupVerdict::Link);
    assert_eq!(dedup_verdict(Some(&fr), &fr, &en), DedupVerdict::Replace);
    assert_eq!(dedup_verdict(Some(&en), &fr, &en), DedupVerdict::Skip);
    assert_eq!(dedup_verdict(Some(&fr), &en, &en), DedupVerdict::Replace);
}

#[test]
fn unsafe_relative_paths_refused() {
    assert!(reject_unsafe_relative("Heat (1995)").is_ok());
    assert!(matches!(reject_unsafe_relative("/etc/passwd"), Err(LinkError::InvalidRelativePath(p)) if p == "/etc/passwd"));
    assert!(reject_unsafe_relative("a/../b").is_err());
}

#[test]
fn manager_builds_paths() {
    let m = LinkManager::from_instance(&inst("sonarr-fr", "fr"));
    assert_eq!(m.instance_name(), "sonarr-fr");
    assert_eq!(m.kind(), InstanceKind::Sonarr);
    assert_eq!(m.strategy(), LinkStrategy::Hardlink);
    assert_eq!(m.library_target("Show/Season 01/e.mkv").unwrap(), "/srv/library/fr/Show/Season 01/e.mkv");
    assert_eq!(m.storage_source("Show"), "/srv/storage/sonarr-fr/Show");
    assert!(m.library_target("../x").is_err());
}

#[test]
fn path_helpers() {
    assert_eq!(path_join("/a/", "b"), "/a/b");
    assert_eq!(path_join("/a", "/b"), "/b");
    assert_eq!(path_join("", "ffprobe"), "ffprobe");
    assert_eq!(path_file_name("/srv/movies/Heat (1995)"), Some("Heat (1995)".to_owned()));
    assert_eq!(path_file_name("/"), None);
    assert!(paths_equal("/a//b/", "/a/b"));
    assert!(!paths_equal("/a/b", "/a/c"));
    assert_eq!(path_strip_prefix("/srv/storage/x/y", "/srv/storage"), Some("x/y".to_owned()));
}

#[test]
fn link_steps() {
    assert_eq!(symlink_step(&ExistingEntry::Missing, "/s", "/t").unwrap(), LinkAction::Created);
    assert_eq!(symlink_step(&ExistingEntry::Symlink("/s".to_owned()), "/s", "/t").unwrap(), LinkAction::AlreadyPresent);
    assert!(matches!(symlink_step(&ExistingEntry::Other, "/s", "/t"), Err(LinkError::AlreadyExists { .. })));
    assert_eq!(hardlink_step(false, false, "/s", "/t").unwrap(), LinkAction::Created);
    assert_eq!(hardlink_step(true, true, "/s", "/t").unwrap(), LinkAction::AlreadyPresent);
    assert!(hardlink_step(true, false, "/s", "/t").is_err());
    assert_eq!(mirror_outcome(&vec![LinkAction::AlreadyPresent, LinkAction::Created]), LinkAction::Created);
    assert_eq!(mirror_outcome(&vec![LinkAction::AlreadyPresent]), LinkAction::AlreadyPresent);
    assert!(prune_may_remove("/lib/fr/Show/Season 01", "/lib/fr"));
    assert!(!prune_may_remove("/lib/fr", "/lib/fr"));
    assert!(is_last_hardlink_rule(LinkStrategy::Hardlink, true, 1));
    assert!(!is_last_hardlink_rule(LinkStrategy::Hardlink, true, 2));
    assert!(!is_last_hardlink_rule(LinkStrategy::Symlink, true, 1));
}

#[test]
fn hardlink_failures_classified() {
    assert_eq!(libc_exdev(), 18);
    let e = LinkError::from_hardlink_failure("/a".to_owned(), "/b".to_owned(), Some(18), IoErrorKind::Other, "x".to_owned());
    assert!(matches!(e, LinkError::CrossFilesystem { .. }));
    let e = LinkError::from_hardlink_failure("/a".to_owned(), "/b".to_owned(), Some(2), IoErrorKind::NotFound, "x".to_owned());
    assert!(matches!(e, LinkError::NotFound(p) if p == "/b"));
    let e = LinkError::from_io("/c".to_owned(), IoErrorKind::Other, "boom".to_owned());
    assert!(matches!(e, LinkError::Io { path, message } if path == "/c" && message == "boom"));
}

#[test]
fn safe_join_stays_under_base() {
    for (base, rel) in [
        ("/srv/library/fr", "Show/Season 01/e.mkv"),
        ("/srv/library/fr/", "./Heat (1995)/h.mkv"),
        ("lib", "a//b"),
    ] {
        assert!(reject_unsafe_relative(rel).is_ok());
        let joined = path_join(base, rel);
        assert!(path_starts_with(&joined, base), "{joined} under {base}");
        let base_len = path_components(base).len();
        for comp in &path_components(&joined)[base_len..] {
            assert_ne!(comp.iter().collect::<String>(), "..");
            assert_ne!(comp.iter().collect::<String>(), "/");
        }
    }
}
