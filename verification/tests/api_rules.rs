use multilinguarr::api::auth::STATUS_UNAUTHORIZED;
use multilinguarr::api::config::DEFAULT_QUEUE_CONCURRENCY;
use multilinguarr::api::instances::{check_create, check_update};
use multilinguarr::api::languages::language_not_found;
use multilinguarr::api::regenerate::check_regenerate;
use multilinguarr::api::schema::{config_schema, instances_schema, languages_schema, SchemaDefault};
use multilinguarr::api::setup::complete_setup;
use multilinguarr::api::{
    collect_missing_items, default_true, require_api_key, ApiError, AuthDecision,
    CreateLanguageRequest, GeneralConfigDto, InstanceDto, LanguageDefinitionDto, ListQuery,
    RegenerateQuery,
};
use multilinguarr::config::{
    Config, InstanceConfig, InstanceKind, LanguageDefinition, LanguagesConfig, LinkStrategy,
    QueueConfig,
};
use multilinguarr::queue::{JobStatus, QueueError};

fn instance(name: &str, lang: &str) -> InstanceConfig {
    InstanceConfig {
        name: name.to_owned(),
        kind: InstanceKind::Radarr,
        language: lang.to_owned(),
        url: "http://radarr-fr:7878".to_owned(),
        api_key: "secret".to_owned(),
        storage_path: "/srv/storage/radarr-fr".to_owned(),
        library_path: "/srv/library/movies/fr".to_owned(),
        link_strategy: LinkStrategy::Hardlink,
        propagate_delete: false,
    }
}

fn dto(name: &str, kind: &str, strategy: &str) -> InstanceDto {
    InstanceDto {
        name: name.to_owned(),
        kind: kind.to_owned(),
        language: "fr".to_owned(),
        url: "http://sonarr-fr:8989".to_owned(),
        api_key: "k".to_owned(),
        storage_path: "/s".to_owned(),
        library_path: "/l".to_owned(),
        link_strategy: strategy.to_owned(),
        propagate_delete: default_true(),
    }
}

fn definition() -> LanguageDefinition {
    LanguageDefinition {
        iso_639_1: vec!["fr".to_owned()],
        iso_639_2: vec!["fre".to_owned(), "fra".to_owned()],
        radarr_id: 2,
        sonarr_id: 2,
    }
}

#[test]
fn api_error_statuses_and_messages() {
    let e = ApiError::NotFound("language 'xx' not found".to_owned());
    assert_eq!(e.status_code(), 404);
    assert_eq!(e.message(), "language 'xx' not found");
    assert_eq!(ApiError::Conflict("c".to_owned()).status_code(), 409);
    assert_eq!(ApiError::BadRequest("b".to_owned()).status_code(), 400);
    assert_eq!(ApiError::Internal("i".to_owned()).status_code(), 500);
}

#[test]
fn queue_errors_are_opaque() {
    let e = ApiError::from_queue(QueueError::Db("disk full".to_owned()));
    assert_eq!(e.status_code(), 500);
    assert_eq!(e.message(), "internal error");
}

#[test]
fn database_errors_map_to_conflicts() {
    let fk = ApiError::from_database(Some("FOREIGN KEY constraint failed"));
    assert_eq!(fk.status_code(), 409);
    assert_eq!(fk.message(), "cannot delete: still referenced by an instance");
    let uq = ApiError::from_database(Some("UNIQUE constraint failed: languages.key"));
    assert_eq!(uq.status_code(), 409);
    assert_eq!(uq.message(), "already exists");
    let pk = ApiError::from_database(Some("PRIMARY KEY must be unique"));
    assert_eq!(pk.message(), "already exists");
    let other = ApiError::from_database(Some("database is locked"));
    assert_eq!(other.status_code(), 500);
    assert_eq!(other.message(), "internal error");
    let none = ApiError::from_database(None);
    assert_eq!(none.message(), "internal error");
}

#[test]
fn api_key_check() {
    assert_eq!(require_api_key(Some("secret"), "secret"), AuthDecision::Allow);
    assert_eq!(require_api_key(Some("secreT"), "secret"), AuthDecision::InvalidKey);
    assert_eq!(require_api_key(Some("secret2"), "secret"), AuthDecision::InvalidKey);
    assert_eq!(require_api_key(None, "secret"), AuthDecision::MissingKey);
    assert_eq!(STATUS_UNAUTHORIZED, 401);
    assert_eq!(AuthDecision::Allow.rejection_message(), None);
    assert_eq!(AuthDecision::InvalidKey.rejection_message().unwrap(), "invalid API key");
    assert_eq!(AuthDecision::MissingKey.rejection_message().unwrap(), "X-Api-Key header required");
}

#[test]
fn instance_dto_masks_key() {
    let d = InstanceDto::from_instance(instance("radarr-fr", "fr"));
    assert_eq!(d.name, "radarr-fr");
    assert_eq!(d.kind, "radarr");
    assert_eq!(d.api_key, "***");
    assert_eq!(d.link_strategy, "hardlink");
    assert_eq!(d.storage_path, "/srv/storage/radarr-fr");
    assert!(!d.propagate_delete);
}

#[test]
fn instance_dto_converts_back() {
    let inst = dto("sonarr-fr", "sonarr", "symlink").into_instance().unwrap();
    assert_eq!(inst.name, "sonarr-fr");
    assert_eq!(inst.kind, InstanceKind::Sonarr);
    assert_eq!(inst.link_strategy, LinkStrategy::Symlink);
    assert_eq!(inst.api_key, "k");
    assert!(inst.propagate_delete);
}

#[test]
fn instance_dto_rejects_unknown_type_first() {
    let e = dto("x", "lidarr", "copy").into_instance().unwrap_err();
    assert_eq!(e.status_code(), 400);
    assert_eq!(e.message(), "invalid type 'lidarr', expected 'radarr' or 'sonarr'");
    let e = dto("x", "radarr", "copy").into_instance().unwrap_err();
    assert_eq!(e.message(), "invalid link_strategy 'copy', expected 'symlink' or 'hardlink'");
}

#[test]
fn instance_create_checks() {
    let e = check_create(dto("", "radarr", "symlink"), true).unwrap_err();
    assert_eq!(e.message(), "name is required");
    let e = check_create(dto("radarr-fr", "radarr", "symlink"), false).unwrap_err();
    assert_eq!(
        e.message(),
        "language 'fr' not found — create it first via /api/v1/languages"
    );
    let inst = check_create(dto("radarr-fr", "radarr", "symlink"), true).unwrap();
    assert_eq!(inst.name, "radarr-fr");
}

#[test]
fn instance_update_takes_name_from_path() {
    let inst = check_update("radarr-en", dto("ignored", "radarr", "hardlink"), true).unwrap();
    assert_eq!(inst.name, "radarr-en");
    assert_eq!(inst.link_strategy, LinkStrategy::Hardlink);
    let e = check_update("radarr-en", dto("ignored", "radarr", "hardlink"), false).unwrap_err();
    assert_eq!(e.message(), "language 'fr' not found");
}

#[test]
fn language_dto_conversions() {
    let d = LanguageDefinitionDto::from_definition(definition());
    assert_eq!(d.iso_639_2, vec!["fre".to_owned(), "fra".to_owned()]);
    assert_eq!(d.radarr_id, 2);
    let back = d.into_definition();
    assert_eq!(back.iso_639_1, vec!["fr".to_owned()]);
    let req = CreateLanguageRequest {
        key: String::new(),
        definition: LanguageDefinitionDto::from_definition(definition()),
    };
    assert_eq!(req.check().unwrap_err().message(), "key is required");
    assert_eq!(language_not_found("xx").message(), "language 'xx' not found");
}

#[test]
fn general_config_reads_stored_values() {
    let c = GeneralConfigDto::from_stored(Some("fr".to_owned()), Some("4".to_owned()));
    assert_eq!(c.primary_language, "fr");
    assert_eq!(c.queue_concurrency, 4);
    let c = GeneralConfigDto::from_stored(None, Some("lots".to_owned()));
    assert_eq!(c.primary_language, "");
    assert_eq!(c.queue_concurrency, DEFAULT_QUEUE_CONCURRENCY);
    let c = GeneralConfigDto::from_stored(None, Some("4294967296".to_owned()));
    assert_eq!(c.queue_concurrency, 2);
    let c = GeneralConfigDto::from_stored(None, Some("+7".to_owned()));
    assert_eq!(c.queue_concurrency, 7);
    let c = GeneralConfigDto::from_stored(None, None);
    assert_eq!(c.queue_concurrency, 2);
}

#[test]
fn general_config_checks() {
    let c = GeneralConfigDto { primary_language: String::new(), queue_concurrency: 0 };
    assert_eq!(c.check().unwrap_err().message(), "primary_language must not be empty");
    let c = GeneralConfigDto { primary_language: "fr".to_owned(), queue_concurrency: 0 };
    assert_eq!(c.check().unwrap_err().message(), "queue_concurrency must be greater than 0");
    let c = GeneralConfigDto { primary_language: "fr".to_owned(), queue_concurrency: 3 };
    assert!(c.check().is_ok());
    assert_eq!(c.unknown_primary().message(), "language 'fr' not found — create it first");
    assert_eq!(c.concurrency_text(), "3");
    let back = GeneralConfigDto::from_stored(None, Some(c.concurrency_text()));
    assert_eq!(back.queue_concurrency, 3);
}

#[test]
fn setup_lists_everything_missing() {
    let missing = collect_missing_items(&[], "", &[]);
    assert_eq!(
        missing,
        vec![
            "at least one language definition required".to_owned(),
            "primary_language not set (PUT /api/v1/config)".to_owned(),
            "at least one instance required".to_owned(),
        ]
    );
    let langs = vec![("en".to_owned(), definition())];
    let missing = collect_missing_items(&langs, "fr", &[instance("radarr-fr", "fr")]);
    assert_eq!(
        missing,
        vec!["primary_language 'fr' not found in language definitions".to_owned()]
    );
    let langs = vec![("fr".to_owned(), definition())];
    assert!(collect_missing_items(&langs, "fr", &[instance("radarr-fr", "fr")]).is_empty());
}

#[test]
fn setup_completion_gate() {
    let e = complete_setup(vec!["a".to_owned(), "b".to_owned()]).unwrap_err();
    assert_eq!(e.status_code(), 400);
    assert_eq!(e.message(), "a; b");
    let s = complete_setup(vec![]).unwrap();
    assert!(s.complete);
    assert!(s.missing.is_empty());
}

#[test]
fn job_list_query() {
    let q = ListQuery { status: Some("dead_letter".to_owned()), limit: None };
    let (f, n) = q.resolve().unwrap();
    assert_eq!(f, Some(JobStatus::DeadLetter));
    assert_eq!(n, 100);
    let q = ListQuery { status: None, limit: Some(5) };
    assert_eq!(q.resolve().unwrap(), (None, 5));
    let q = ListQuery { status: Some("zombie".to_owned()), limit: Some(5) };
    assert_eq!(q.resolve().unwrap_err().message(), "invalid status 'zombie'");
}

#[test]
fn regenerate_preconditions() {
    assert!(!RegenerateQuery::default().dry_run);
    let e = check_regenerate(false, None).unwrap_err();
    assert_eq!(e.message(), "ffprobe not available on this host");
    let e = check_regenerate(true, None).unwrap_err();
    assert_eq!(e.message(), "no config loaded — complete setup first");
    let mut cfg = Config {
        port: 3100,
        log_level: "info".to_owned(),
        media_base_path: "/srv".to_owned(),
        database_path: "/data/db".to_owned(),
        api_key: "k".to_owned(),
        queue: QueueConfig { concurrency: 2 },
        languages: LanguagesConfig {
            primary: "fr".to_owned(),
            alternates: vec![],
            definitions: vec![("fr".to_owned(), definition())],
        },
        instances: vec![],
        jellyfin: None,
    };
    let e = check_regenerate(true, Some(&cfg)).unwrap_err();
    assert_eq!(e.message(), "no instances configured — add at least one via POST /api/v1/instances");
    cfg.instances.push(instance("radarr-fr", "fr"));
    assert!(check_regenerate(true, Some(&cfg)).is_ok());
}

#[test]
fn schemas_document_the_defaults() {
    let langs = languages_schema();
    let names: Vec<&str> = langs.iter().map(|f| f.name).collect();
    assert_eq!(names, vec!["key", "iso_639_1", "iso_639_2", "radarr_id", "sonarr_id"]);
    assert!(langs.iter().all(|f| f.required));
    let inst = instances_schema();
    assert_eq!(inst.len(), 9);
    assert_eq!(inst[1].options.clone().unwrap(), vec!["radarr", "sonarr"]);
    assert!(matches!(inst[7].default, Some(SchemaDefault::Text("symlink"))));
    assert!(matches!(inst[8].default, Some(SchemaDefault::Bool(true))));
    assert!(!inst[8].required);
    let cfg = config_schema();
    assert_eq!(cfg[0].name, "primary_language");
    assert!(matches!(cfg[1].default, Some(SchemaDefault::Integer(2))));
}
