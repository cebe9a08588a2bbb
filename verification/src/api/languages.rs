//! Wire shapes of language definitions.
use vstd::prelude::*;
use super::error::{ApiError, STATUS_BAD_REQUEST, STATUS_NOT_FOUND};
use crate::config::types::LanguageDefinition;
use crate::text::concat3;

verus! {

/// A language definition as the API reads and writes it.
#[derive(Debug, Clone)]
pub struct LanguageDefinitionDto {
    pub iso_639_1: Vec<String>,
    pub iso_639_2: Vec<String>,
    pub radarr_id: u32,
    pub sonarr_id: u32,
}

/// A language definition with its key (the definition's fields are
/// flattened next to `key` in JSON).
#[derive(Debug, Clone)]
pub struct LanguageResponse {
    pub key: String,
    pub definition: LanguageDefinitionDto,
}

/// Body of a language creation request.
#[derive(Debug, Clone)]
pub struct CreateLanguageRequest {
    pub key: String,
    pub definition: LanguageDefinitionDto,
}

impl LanguageDefinitionDto {
    /// The wire form of a stored definition.
    pub fn from_definition(def: LanguageDefinition) -> (r: Self)
        ensures
            r.iso_639_1 == def.iso_639_1,
            r.iso_639_2 == def.iso_639_2,
            r.radarr_id == def.radarr_id,
            r.sonarr_id == def.sonarr_id,
    {
        LanguageDefinitionDto {
            iso_639_1: def.iso_639_1,
            iso_639_2: def.iso_639_2,
            radarr_id: def.radarr_id,
            sonarr_id: def.sonarr_id,
        }
    }

    /// The definition this body describes.
    pub fn into_definition(self) -> (r: LanguageDefinition)
        ensures
            r.iso_639_1 == self.iso_639_1,
            r.iso_639_2 == self.iso_639_2,
            r.radarr_id == self.radarr_id,
            r.sonarr_id == self.sonarr_id,
    {
        LanguageDefinition {
            iso_639_1: self.iso_639_1,
            iso_639_2: self.iso_639_2,
            radarr_id: self.radarr_id,
            sonarr_id: self.sonarr_id,
        }
    }
}

impl CreateLanguageRequest {
    /// A creation request needs a key: an empty one is a 400.
    pub fn check(&self) -> (r: Result<(), ApiError>)
        ensures
            self.key@.len() == 0 <==> r is Err,
            r matches Err(e) ==> e@ == (STATUS_BAD_REQUEST, "key is required"@),
    {
        if self.key.as_str().is_empty() {
            Err(ApiError::BadRequest(String::from_str("key is required")))
        } else {
            Ok(())
        }
    }
}

/// The 404 for a language key that is not defined.
pub fn language_not_found(key: &str) -> (r: ApiError)
    ensures
        r@ == (STATUS_NOT_FOUND, "language '"@ + key@ + "' not found"@),
{
    ApiError::NotFound(concat3("language '", key, "' not found"))
}

} // verus!
