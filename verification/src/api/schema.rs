//! Self-documenting field definitions of the API's bodies, served without
//! authentication so that any client can discover the expected shapes.
use vstd::prelude::*;
use super::config::DEFAULT_QUEUE_CONCURRENCY;
use crate::config::types::{kind_name, strategy_name, InstanceKind, LinkStrategy};

verus! {

/// Default value of a field, as shown in its definition.
#[derive(Debug, Clone, Copy)]
pub enum SchemaDefault {
    Text(&'static str),
    Bool(bool),
    Integer(u32),
}

/// One field of a request body.
#[derive(Debug, Clone)]
pub struct SchemaField {
    pub name: &'static str,
    /// Shown as `type`: `string`, `string[]`, `integer`, `select`, `url`,
    /// `password`, `path` or `bool`.
    pub value_type: &'static str,
    pub required: bool,
    pub default: Option<SchemaDefault>,
    pub options: Option<Vec<&'static str>>,
    pub example: Option<&'static str>,
    pub hint: Option<&'static str>,
}

/// Name, type and whether it is required, of each field.
pub open spec fn shape(fields: Seq<SchemaField>) -> Seq<(Seq<char>, Seq<char>, bool)> {
    fields.map_values(|f: SchemaField| (f.name@, f.value_type@, f.required))
}

/// The options of a field, as text.
pub open spec fn option_names(f: SchemaField) -> Option<Seq<Seq<char>>> {
    match f.options {
        Some(v) => Some(v@.map_values(|o: &'static str| o@)),
        None => None,
    }
}

/// A static text as a character sequence.
pub open spec fn opt_text(o: Option<&'static str>) -> Option<Seq<char>> {
    match o {
        Some(t) => Some(t@),
        None => None,
    }
}

/// Example and hint of each field.
pub open spec fn notes(fields: Seq<SchemaField>) -> Seq<(Option<Seq<char>>, Option<Seq<char>>)> {
    fields.map_values(|f: SchemaField| (opt_text(f.example), opt_text(f.hint)))
}

fn field(
    name: &'static str,
    value_type: &'static str,
    required: bool,
    default: Option<SchemaDefault>,
    options: Option<Vec<&'static str>>,
    example: Option<&'static str>,
    hint: Option<&'static str>,
) -> (r: SchemaField)
    ensures
        r == (SchemaField { name, value_type, required, default, options, example, hint }),
{
    SchemaField { name, value_type, required, default, options, example, hint }
}

/// Fields of a language definition: all five required.
pub fn languages_schema() -> (r: Vec<SchemaField>)
    ensures
        shape(r@) == seq![
            ("key"@, "string"@, true),
            ("iso_639_1"@, "string[]"@, true),
            ("iso_639_2"@, "string[]"@, true),
            ("radarr_id"@, "integer"@, true),
            ("sonarr_id"@, "integer"@, true),
        ],
        forall|i: int| 0 <= i < r@.len() ==> #[trigger] r@[i].default is None && r@[i].options is None,
        notes(r@) == seq![
            (Some("fr"@), Some("Short code used as reference in instances and config"@)),
            (Some("[\"fr\"]"@), Some("ISO 639-1 codes for ffprobe matching"@)),
            (Some("[\"fre\", \"fra\"]"@), Some("ISO 639-2 codes for ffprobe matching"@)),
            (Some("2"@), Some("Radarr language ID (from Radarr API)"@)),
            (Some("2"@), Some("Sonarr language ID (from Sonarr API)"@)),
        ],
{
    let mut v: Vec<SchemaField> = Vec::new();
    v.push(field("key", "string", true, None, None, Some("fr"), Some("Short code used as reference in instances and config")));
    v.push(field("iso_639_1", "string[]", true, None, None, Some("[\"fr\"]"), Some("ISO 639-1 codes for ffprobe matching")));
    v.push(field("iso_639_2", "string[]", true, None, None, Some("[\"fre\", \"fra\"]"), Some("ISO 639-2 codes for ffprobe matching")));
    v.push(field("radarr_id", "integer", true, None, None, Some("2"), Some("Radarr language ID (from Radarr API)")));
    v.push(field("sonarr_id", "integer", true, None, None, Some("2"), Some("Sonarr language ID (from Sonarr API)")));
    assert(shape(v@) =~= seq![
        ("key"@, "string"@, true),
        ("iso_639_1"@, "string[]"@, true),
        ("iso_639_2"@, "string[]"@, true),
        ("radarr_id"@, "integer"@, true),
        ("sonarr_id"@, "integer"@, true),
    ]);
    assert(notes(v@) =~= seq![
        (Some("fr"@), Some("Short code used as reference in instances and config"@)),
        (Some("[\"fr\"]"@), Some("ISO 639-1 codes for ffprobe matching"@)),
        (Some("[\"fre\", \"fra\"]"@), Some("ISO 639-2 codes for ffprobe matching"@)),
        (Some("2"@), Some("Radarr language ID (from Radarr API)"@)),
        (Some("2"@), Some("Sonarr language ID (from Sonarr API)"@)),
    ]);
    v
}

/// Fields of an instance. The type and the link strategy offer exactly the
/// text forms the API accepts; the link strategy defaults to symlink and
/// delete propagation to `true`, the defaults the API applies.
pub fn instances_schema() -> (r: Vec<SchemaField>)
    ensures
        shape(r@) == seq![
            ("name"@, "string"@, true),
            ("type"@, "select"@, true),
            ("language"@, "string"@, true),
            ("url"@, "url"@, true),
            ("api_key"@, "password"@, true),
            ("storage_path"@, "path"@, true),
            ("library_path"@, "path"@, true),
            ("link_strategy"@, "select"@, true),
            ("propagate_delete"@, "bool"@, false),
        ],
        option_names(r@[1]) == Some(seq![kind_name(InstanceKind::Radarr), kind_name(InstanceKind::Sonarr)]),
        option_names(r@[7]) == Some(seq![strategy_name(LinkStrategy::Symlink), strategy_name(LinkStrategy::Hardlink)]),
        r@[7].default matches Some(SchemaDefault::Text(t)) && t@ == strategy_name(LinkStrategy::Symlink),
        r@[8].default == Some(SchemaDefault::Bool(true)),
        forall|i: int| 0 <= i < r@.len() && i != 1 && i != 7 ==> #[trigger] r@[i].options is None,
        forall|i: int| 0 <= i < r@.len() && i != 7 && i != 8 ==> #[trigger] r@[i].default is None,
        notes(r@) == seq![
            (Some("radarr-fr"@), Some("Unique identifier, used in webhook URL path"@)),
            (None, None),
            (Some("fr"@), Some("Language key from /api/v1/languages"@)),
            (Some("http://radarr-fr:7878"@), None),
            (None, None),
            (Some("/srv/media/storage/radarr-fr"@), None),
            (Some("/srv/media/library/movies/fr"@), None),
            (None, Some("hardlink requires same filesystem; symlink works across filesystems/disks"@)),
            (None, Some("When true, deletes fan out to other instances"@)),
        ],
{
    let mut v: Vec<SchemaField> = Vec::new();
    v.push(field("name", "string", true, None, None, Some("radarr-fr"), Some("Unique identifier, used in webhook URL path")));
    let kinds: Vec<&'static str> = vec!["radarr", "sonarr"];
    v.push(field("type", "select", true, None, Some(kinds), None, None));
    v.push(field("language", "string", true, None, None, Some("fr"), Some("Language key from /api/v1/languages")));
    v.push(field("url", "url", true, None, None, Some("http://radarr-fr:7878"), None));
    v.push(field("api_key", "password", true, None, None, None, None));
    v.push(field("storage_path", "path", true, None, None, Some("/srv/media/storage/radarr-fr"), None));
    v.push(field("library_path", "path", true, None, None, Some("/srv/media/library/movies/fr"), None));
    let strategies: Vec<&'static str> = vec!["symlink", "hardlink"];
    v.push(field(
        "link_strategy",
        "select",
        true,
        Some(SchemaDefault::Text("symlink")),
        Some(strategies),
        None,
        Some("hardlink requires same filesystem; symlink works across filesystems/disks"),
    ));
    v.push(field(
        "propagate_delete",
        "bool",
        false,
        Some(SchemaDefault::Bool(true)),
        None,
        None,
        Some("When true, deletes fan out to other instances"),
    ));
    assert(shape(v@) =~= seq![
        ("name"@, "string"@, true),
        ("type"@, "select"@, true),
        ("language"@, "string"@, true),
        ("url"@, "url"@, true),
        ("api_key"@, "password"@, true),
        ("storage_path"@, "path"@, true),
        ("library_path"@, "path"@, true),
        ("link_strategy"@, "select"@, true),
        ("propagate_delete"@, "bool"@, false),
    ]);
    assert(option_names(v@[1])->0 =~= seq![kind_name(InstanceKind::Radarr), kind_name(InstanceKind::Sonarr)]);
    assert(option_names(v@[7])->0 =~= seq![strategy_name(LinkStrategy::Symlink), strategy_name(LinkStrategy::Hardlink)]);
    assert(notes(v@) =~= seq![
        (Some("radarr-fr"@), Some("Unique identifier, used in webhook URL path"@)),
        (None, None),
        (Some("fr"@), Some("Language key from /api/v1/languages"@)),
        (Some("http://radarr-fr:7878"@), None),
        (None, None),
        (Some("/srv/media/storage/radarr-fr"@), None),
        (Some("/srv/media/library/movies/fr"@), None),
        (None, Some("hardlink requires same filesystem; symlink works across filesystems/disks"@)),
        (None, Some("When true, deletes fan out to other instances"@)),
    ]);
    v
}

/// Fields of the general settings; the worker count defaults to the value
/// the API reads when none is stored.
pub fn config_schema() -> (r: Vec<SchemaField>)
    ensures
        shape(r@) == seq![("primary_language"@, "string"@, true), ("queue_concurrency"@, "integer"@, false)],
        r@[0].default is None,
        r@[1].default == Some(SchemaDefault::Integer(DEFAULT_QUEUE_CONCURRENCY)),
        r@[0].options is None && r@[1].options is None,
        notes(r@) == seq![
            (Some("fr"@), Some("Language key from /api/v1/languages — the primary download language"@)),
            (None, Some("Number of concurrent webhook job workers"@)),
        ],
{
    let mut v: Vec<SchemaField> = Vec::new();
    v.push(field(
        "primary_language",
        "string",
        true,
        None,
        None,
        Some("fr"),
        Some("Language key from /api/v1/languages — the primary download language"),
    ));
    v.push(field(
        "queue_concurrency",
        "integer",
        false,
        Some(SchemaDefault::Integer(DEFAULT_QUEUE_CONCURRENCY)),
        None,
        None,
        Some("Number of concurrent webhook job workers"),
    ));
    assert(shape(v@) =~= seq![("primary_language"@, "string"@, true), ("queue_concurrency"@, "integer"@, false)]);
    assert(notes(v@) =~= seq![
        (Some("fr"@), Some("Language key from /api/v1/languages — the primary download language"@)),
        (None, Some("Number of concurrent webhook job workers"@)),
    ]);
    v
}

} // verus!
