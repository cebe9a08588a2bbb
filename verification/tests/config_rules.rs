use multilinguarr::config::rows::{assemble_config, collect_definitions, InstanceRow, LanguageRow};
use multilinguarr::config::types::{kind_from_label, source_label, strategy_from_label, strategy_label};
use multilinguarr::config::{
    Bootstrap, BootstrapError, EnvVars, InstanceConfig, InstanceKind, JellyfinConfig,
    LanguageDefinition, LinkStrategy,
};

fn vars(api_key: Option<&str>, media: Option<&str>, port: Option<&str>) -> EnvVars {
    EnvVars {
        api_key: api_key.map(str::to_owned),
        media_base_path: media.map(str::to_owned),
        port: port.map(str::to_owned),
        database_path: None,
        log_level: None,
    }
}

fn def(id: u32) -> LanguageDefinition {
    LanguageDefinition {
        iso_639_1: vec!["xx".to_owned()],
        iso_639_2: vec![],
        radarr_id: id,
        sonarr_id: id,
    }
}

fn boot() -> Bootstrap {
    Bootstrap {
        port: 3100,
        api_key: "k".to_owned(),
        media_base_path: "/srv/media".to_owned(),
        database_path: "/data/multilinguarr.db".to_owned(),
        log_level: "info".to_owned(),
    }
}

#[test]
fn bootstrap_defaults() {
    let b = Bootstrap::from_env(vars(Some("key"), Some("/srv/media"), None)).unwrap();
    assert_eq!(b.port, 3100);
    assert_eq!(b.api_key, "key");
    assert_eq!(b.media_base_path, "/srv/media");
    assert_eq!(b.database_path, "/data/multilinguarr.db");
    assert_eq!(b.log_level, "info");
}

#[test]
fn bootstrap_reads_every_variable() {
    let v = EnvVars {
        api_key: Some("key".to_owned()),
        media_base_path: Some("/m".to_owned()),
        port: Some("8080".to_owned()),
        database_path: Some("/tmp/x.db".to_owned()),
        log_level: Some("debug".to_owned()),
    };
    let b = Bootstrap::from_env(v).unwrap();
    assert_eq!(b.port, 8080);
    assert_eq!(b.database_path, "/tmp/x.db");
    assert_eq!(b.log_level, "debug");
}

#[test]
fn bootstrap_errors_in_order() {
    let e = Bootstrap::from_env(vars(None, None, Some("x"))).unwrap_err();
    assert!(matches!(&e, BootstrapError::Missing(v) if v == "MULTILINGUARR_API_KEY"));
    assert_eq!(e.message(), "required environment variable MULTILINGUARR_API_KEY is not set");
    let e = Bootstrap::from_env(vars(Some("k"), None, Some("x"))).unwrap_err();
    assert!(matches!(&e, BootstrapError::Missing(v) if v == "MULTILINGUARR_MEDIA_BASE_PATH"));
    let e = Bootstrap::from_env(vars(Some("k"), Some("/m"), Some("70000"))).unwrap_err();
    assert!(matches!(&e, BootstrapError::InvalidValue { var, value } if var == "MULTILINGUARR_PORT" && value == "70000"));
    assert_eq!(
        e.message(),
        "environment variable MULTILINGUARR_PORT has invalid value: 70000"
    );
    assert!(Bootstrap::from_env(vars(Some("k"), Some("/m"), Some("-1"))).is_err());
    assert!(Bootstrap::from_env(vars(Some("k"), Some("/m"), Some(""))).is_err());
    assert_eq!(Bootstrap::from_env(vars(Some("k"), Some("/m"), Some("65535"))).unwrap().port, 65535);
}

#[test]
fn labels_round_trip() {
    for k in [InstanceKind::Radarr, InstanceKind::Sonarr] {
        assert_eq!(kind_from_label(source_label(k)), Some(k));
    }
    for s in [LinkStrategy::Symlink, LinkStrategy::Hardlink] {
        assert_eq!(strategy_from_label(strategy_label(s)), Some(s));
    }
    assert_eq!(kind_from_label("Radarr"), None);
    assert_eq!(strategy_from_label("copy"), None);
}

#[test]
fn language_row_decodes_json_lists() {
    let row = LanguageRow {
        key: "fr".to_owned(),
        iso_639_1: "[\"fr\"]".to_owned(),
        iso_639_2: "[\"fre\",\"fra\"]".to_owned(),
        radarr_id: 2,
        sonarr_id: 5,
    };
    let (key, d) = row.into_definition();
    assert_eq!(key, "fr");
    assert_eq!(d.iso_639_1, vec!["fr".to_owned()]);
    assert_eq!(d.iso_639_2, vec!["fre".to_owned(), "fra".to_owned()]);
    assert_eq!(d.radarr_id, 2);
    assert_eq!(d.sonarr_id, 5);
}

#[test]
fn corrupt_language_row_reads_as_empty() {
    let row = LanguageRow {
        key: "fr".to_owned(),
        iso_639_1: "not json".to_owned(),
        iso_639_2: "{\"a\":1}".to_owned(),
        radarr_id: -3,
        sonarr_id: 5_000_000_000,
    };
    let (_, d) = row.into_definition();
    assert!(d.iso_639_1.is_empty());
    assert!(d.iso_639_2.is_empty());
    assert_eq!(d.radarr_id, 0);
    assert_eq!(d.sonarr_id, 0);
}

#[test]
fn language_row_written_as_json() {
    let d = LanguageDefinition {
        iso_639_1: vec!["en".to_owned()],
        iso_639_2: vec!["eng".to_owned()],
        radarr_id: 1,
        sonarr_id: 1,
    };
    let row = LanguageRow::from_definition("en", &d);
    assert_eq!(row.iso_639_1, "[\"en\"]");
    assert_eq!(row.iso_639_2, "[\"eng\"]");
    assert_eq!(row.radarr_id, 1);
    let (_, back) = row.into_definition();
    assert_eq!(back.iso_639_2, vec!["eng".to_owned()]);
}

#[test]
fn instance_row_defaults_unknown_text() {
    let row = InstanceRow {
        name: "x".to_owned(),
        kind: "lidarr".to_owned(),
        language: "fr".to_owned(),
        url: "u".to_owned(),
        api_key: "k".to_owned(),
        storage_path: "/s".to_owned(),
        library_path: "/l".to_owned(),
        link_strategy: "copy".to_owned(),
        propagate_delete: true,
    };
    let inst = row.into_config();
    assert_eq!(inst.kind, InstanceKind::Radarr);
    assert_eq!(inst.link_strategy, LinkStrategy::Symlink);
}

#[test]
fn instance_row_round_trip() {
    let inst = InstanceConfig {
        name: "sonarr-en".to_owned(),
        kind: InstanceKind::Sonarr,
        language: "en".to_owned(),
        url: "http://sonarr-en:8989".to_owned(),
        api_key: "k".to_owned(),
        storage_path: "/s".to_owned(),
        library_path: "/l".to_owned(),
        link_strategy: LinkStrategy::Hardlink,
        propagate_delete: false,
    };
    let row = InstanceRow::from_config(inst);
    assert_eq!(row.kind, "sonarr");
    assert_eq!(row.link_strategy, "hardlink");
    let back = row.into_config();
    assert_eq!(back.kind, InstanceKind::Sonarr);
    assert_eq!(back.link_strategy, LinkStrategy::Hardlink);
    assert!(!back.propagate_delete);
}

#[test]
fn later_definition_wins() {
    let pairs = vec![("fr".to_owned(), def(1)), ("en".to_owned(), def(2)), ("fr".to_owned(), def(3))];
    let defs = collect_definitions(pairs);
    assert_eq!(defs.len(), 2);
    assert_eq!(defs[0].0, "fr");
    assert_eq!(defs[0].1.radarr_id, 3);
    assert_eq!(defs[1].0, "en");
}

#[test]
fn config_needs_setup_languages_and_primary() {
    let pairs = || vec![("en".to_owned(), def(1)), ("fr".to_owned(), def(2))];
    assert!(assemble_config(false, pairs(), Some("fr".to_owned()), None, vec![], None, boot()).is_none());
    assert!(assemble_config(true, vec![], Some("fr".to_owned()), None, vec![], None, boot()).is_none());
    assert!(assemble_config(true, pairs(), None, None, vec![], None, boot()).is_none());
    assert!(assemble_config(true, pairs(), Some(String::new()), None, vec![], None, boot()).is_none());
    assert!(assemble_config(true, pairs(), Some("de".to_owned()), None, vec![], None, boot()).is_none());
}

#[test]
fn config_assembled_from_tables() {
    let pairs = vec![("en".to_owned(), def(1)), ("fr".to_owned(), def(2))];
    let jf = JellyfinConfig { url: "http://jf".to_owned(), api_key: "j".to_owned() };
    let c = assemble_config(true, pairs, Some("fr".to_owned()), Some("6".to_owned()), vec![], Some(jf), boot())
        .unwrap();
    assert_eq!(c.port, 3100);
    assert_eq!(c.languages.primary, "fr");
    assert_eq!(c.languages.alternates, vec!["en".to_owned()]);
    assert_eq!(c.languages.definitions.len(), 2);
    assert_eq!(c.queue.concurrency, 6);
    assert_eq!(c.jellyfin.unwrap().url, "http://jf");
    let c = assemble_config(true, vec![("fr".to_owned(), def(2))], Some("fr".to_owned()), Some("many".to_owned()), vec![], None, boot())
        .unwrap();
    assert_eq!(c.queue.concurrency, 2);
    assert!(c.languages.alternates.is_empty());
}

#[test]
fn language_rows_write_compact_escaped_json() {
    let d = LanguageDefinition {
        iso_639_1: vec![],
        iso_639_2: vec!["a\"b".to_owned(), "c\\d".to_owned(), "e\u{1}".to_owned()],
        radarr_id: 3,
        sonarr_id: 4,
    };
    let row = LanguageRow::from_definition("x", &d);
    assert_eq!(row.iso_639_1, "[]");
    assert_eq!(row.iso_639_2, "[\"a\\\"b\",\"c\\\\d\",\"e\\u0001\"]");
}
