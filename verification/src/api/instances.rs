//! Wire shape of an instance, and the checks of its create and update
//! endpoints.
use vstd::prelude::*;
use super::error::{ApiError, STATUS_BAD_REQUEST};
use crate::config::types::{
    kind_name, kind_named, strategy_name, strategy_named, kind_from_label, source_label,
    strategy_from_label, strategy_label, InstanceConfig,
};
use crate::text::concat3;

verus! {

/// An instance as the API reads and writes it: kind and link strategy as
/// text, the API key masked on the way out.
#[derive(Debug, Clone)]
pub struct InstanceDto {
    pub name: String,
    /// `"radarr"` or `"sonarr"` (the JSON field is `type`).
    pub kind: String,
    pub language: String,
    pub url: String,
    pub api_key: String,
    pub storage_path: String,
    pub library_path: String,
    pub link_strategy: String,
    /// Defaults to `true` when the request leaves it out.
    pub propagate_delete: bool,
}

/// Default of `propagate_delete` in a request body.
pub fn default_true() -> (r: bool)
    ensures
        r,
{
    true
}

/// The API key is never shown: it reads `***`.
pub open spec fn masked_key() -> Seq<char> {
    "***"@
}

/// The error for an unknown instance type.
pub open spec fn invalid_type_message(kind: Seq<char>) -> Seq<char> {
    "invalid type '"@ + kind + "', expected 'radarr' or 'sonarr'"@
}

/// The error for an unknown link strategy.
pub open spec fn invalid_strategy_message(strategy: Seq<char>) -> Seq<char> {
    "invalid link_strategy '"@ + strategy + "', expected 'symlink' or 'hardlink'"@
}

/// The instance a valid body describes, with the kind and the strategy it names.
pub open spec fn instance_of_dto(dto: InstanceDto) -> InstanceConfig
    recommends
        kind_named(dto.kind@) is Some,
        strategy_named(dto.link_strategy@) is Some,
{
    InstanceConfig {
        name: dto.name,
        kind: kind_named(dto.kind@)->0,
        language: dto.language,
        url: dto.url,
        api_key: dto.api_key,
        storage_path: dto.storage_path,
        library_path: dto.library_path,
        link_strategy: strategy_named(dto.link_strategy@)->0,
        propagate_delete: dto.propagate_delete,
    }
}

/// Outcome of turning a body into an instance: the instance, or the status
/// and message of the rejection.
pub open spec fn dto_checked(dto: InstanceDto) -> Result<InstanceConfig, (u16, Seq<char>)> {
    if kind_named(dto.kind@) is None {
        Err((STATUS_BAD_REQUEST, invalid_type_message(dto.kind@)))
    } else if strategy_named(dto.link_strategy@) is None {
        Err((STATUS_BAD_REQUEST, invalid_strategy_message(dto.link_strategy@)))
    } else {
        Ok(instance_of_dto(dto))
    }
}

/// `r` is the error or the value that `expected` describes.
pub open spec fn answers(r: Result<InstanceConfig, ApiError>, expected: Result<InstanceConfig, (u16, Seq<char>)>) -> bool {
    match (r, expected) {
        (Ok(a), Ok(b)) => a == b,
        (Err(e), Err(v)) => e@ == v,
        _ => false,
    }
}

impl InstanceDto {
    /// The wire form of a stored instance; the API key is masked.
    pub fn from_instance(inst: InstanceConfig) -> (r: InstanceDto)
        ensures
            r.name == inst.name,
            r.kind@ == kind_name(inst.kind),
            r.language == inst.language,
            r.url == inst.url,
            r.api_key@ == masked_key(),
            r.storage_path == inst.storage_path,
            r.library_path == inst.library_path,
            r.link_strategy@ == strategy_name(inst.link_strategy),
            r.propagate_delete == inst.propagate_delete,
    {
        InstanceDto {
            name: inst.name,
            kind: String::from_str(source_label(inst.kind)),
            language: inst.language,
            url: inst.url,
            api_key: String::from_str("***"),
            storage_path: inst.storage_path,
            library_path: inst.library_path,
            link_strategy: String::from_str(strategy_label(inst.link_strategy)),
            propagate_delete: inst.propagate_delete,
        }
    }

    /// The instance this body describes. The type is checked before the
    /// link strategy; either one unknown is a 400.
    pub fn into_instance(self) -> (r: Result<InstanceConfig, ApiError>)
        ensures
            answers(r, dto_checked(self)),
    {
        let kind = match kind_from_label(self.kind.as_str()) {
            Some(k) => k,
            None => {
                let m = concat3("invalid type '", self.kind.as_str(), "', expected 'radarr' or 'sonarr'");
                return Err(ApiError::BadRequest(m));
            },
        };
        let link_strategy = match strategy_from_label(self.link_strategy.as_str()) {
            Some(s) => s,
            None => {
                let m = concat3(
                    "invalid link_strategy '",
                    self.link_strategy.as_str(),
                    "', expected 'symlink' or 'hardlink'",
                );
                return Err(ApiError::BadRequest(m));
            },
        };
        Ok(InstanceConfig {
            name: self.name,
            kind,
            language: self.language,
            url: self.url,
            api_key: self.api_key,
            storage_path: self.storage_path,
            library_path: self.library_path,
            link_strategy,
            propagate_delete: self.propagate_delete,
        })
    }
}

/// What creating an instance from `body` gives, where `language_exists` says
/// whether its language is defined: an empty name and an unknown language
/// are 400s, checked in that order before the type and the strategy.
pub fn check_create(body: InstanceDto, language_exists: bool) -> (r: Result<InstanceConfig, ApiError>)
    ensures
        body.name@.len() == 0 ==> (r matches Err(e) && e@ == (STATUS_BAD_REQUEST, "name is required"@)),
        body.name@.len() > 0 && !language_exists ==> (r matches Err(e) && e@ == (
            STATUS_BAD_REQUEST,
            "language '"@ + body.language@ + "' not found — create it first via /api/v1/languages"@,
        )),
        body.name@.len() > 0 && language_exists ==> answers(r, dto_checked(body)),
{
    if body.name.as_str().is_empty() {
        return Err(ApiError::BadRequest(String::from_str("name is required")));
    }
    if !language_exists {
        let m = concat3("language '", body.language.as_str(), "' not found — create it first via /api/v1/languages");
        return Err(ApiError::BadRequest(m));
    }
    body.into_instance()
}

/// What updating instance `name` with `body` gives: the name in the path
/// replaces the body's; an unknown language is a 400, checked before the
/// type and the strategy.
pub fn check_update(name: &str, body: InstanceDto, language_exists: bool) -> (r: Result<InstanceConfig, ApiError>)
    ensures
        !language_exists ==> (r matches Err(e) && e@ == (
            STATUS_BAD_REQUEST,
            "language '"@ + body.language@ + "' not found"@,
        )),
        language_exists ==> match r {
            Ok(inst) => inst.name@ == name@ && (dto_checked(body) matches Ok(b) && inst.kind == b.kind
                && inst.language == b.language && inst.url == b.url && inst.api_key == b.api_key
                && inst.storage_path == b.storage_path && inst.library_path == b.library_path
                && inst.link_strategy == b.link_strategy && inst.propagate_delete == b.propagate_delete),
            Err(e) => (dto_checked(body) matches Err(v) && e@ == v),
        },
{
    if !language_exists {
        let m = concat3("language '", body.language.as_str(), "' not found");
        return Err(ApiError::BadRequest(m));
    }
    let mut body = body;
    let ghost before = body;
    body.name = String::from_str(name);
    proof {
        assert(kind_named(body.kind@) == kind_named(before.kind@));
    }
    body.into_instance()
}

} // verus!

verus! {

/// An instance shown by the API and sent back with its key converts to the
/// same instance: the text forms of kind and strategy read back exactly.
pub proof fn law_dto_round_trips(inst: InstanceConfig, dto: InstanceDto)
    requires
        dto.name == inst.name,
        dto.kind@ == kind_name(inst.kind),
        dto.language == inst.language,
        dto.url == inst.url,
        dto.api_key == inst.api_key,
        dto.storage_path == inst.storage_path,
        dto.library_path == inst.library_path,
        dto.link_strategy@ == strategy_name(inst.link_strategy),
        dto.propagate_delete == inst.propagate_delete,
    ensures
        dto_checked(dto) == Ok::<InstanceConfig, (u16, Seq<char>)>(inst),
{
    crate::config::types::law_labels_round_trip(inst.kind, inst.link_strategy);
}

} // verus!
