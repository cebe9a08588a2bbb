//! First-run setup: what the minimum viable configuration still lacks.
use vstd::prelude::*;
use super::error::{ApiError, STATUS_BAD_REQUEST};
use crate::config::types::{definition_keys, InstanceConfig, LanguageDefinition};
use crate::text::{concat3, joined, join_strings, str_eq, views};

verus! {

/// Whether setup is complete, and what is missing when it is not.
#[derive(Debug, Clone)]
pub struct SetupStatus {
    pub complete: bool,
    pub missing: Vec<String>,
}

/// The messages for what is missing, in this order: no language, then the
/// primary language unset or not among the languages, then no instance.
pub open spec fn missing_items(lang_keys: Seq<Seq<char>>, primary: Seq<char>, no_instances: bool) -> Seq<Seq<char>> {
    let languages = if lang_keys.len() == 0 {
        seq!["at least one language definition required"@]
    } else {
        Seq::empty()
    };
    let primary_item = if primary.len() == 0 {
        seq!["primary_language not set (PUT /api/v1/config)"@]
    } else if !lang_keys.contains(primary) {
        seq!["primary_language '"@ + primary + "' not found in language definitions"@]
    } else {
        Seq::empty()
    };
    let instances = if no_instances {
        seq!["at least one instance required"@]
    } else {
        Seq::empty()
    };
    languages + primary_item + instances
}

fn has_key(langs: &[(String, LanguageDefinition)], key: &str) -> (r: bool)
    ensures
        r == definition_keys(langs@).contains(key@),
{
    let mut i: usize = 0;
    while i < langs.len()
        invariant
            i <= langs@.len(),
            forall|j: int| 0 <= j < i ==> langs@[j].0@ != key@,
        decreases langs@.len() - i,
    {
        if str_eq(langs[i].0.as_str(), key) {
            proof {
                assert(definition_keys(langs@)[i as int] == key@);
            }
            return true;
        }
        i = i + 1;
    }
    proof {
        if definition_keys(langs@).contains(key@) {
            let j = choose|j: int| 0 <= j < definition_keys(langs@).len() && definition_keys(langs@)[j] == key@;
            assert(langs@[j].0@ == key@);
        }
    }
    false
}

/// What the minimum viable configuration lacks, given the language
/// definitions, the primary language key and the instances.
pub fn collect_missing_items(
    langs: &[(String, LanguageDefinition)],
    primary: &str,
    instances: &[InstanceConfig],
) -> (r: Vec<String>)
    ensures
        views(r@) == missing_items(definition_keys(langs@), primary@, instances@.len() == 0),
{
    let mut missing: Vec<String> = Vec::new();
    let ghost keys = definition_keys(langs@);
    let ghost a: Seq<Seq<char>> = if keys.len() == 0 {
        seq!["at least one language definition required"@]
    } else {
        Seq::empty()
    };
    if langs.len() == 0 {
        missing.push(String::from_str("at least one language definition required"));
    }
    assert(views(missing@) =~= a);
    let ghost b: Seq<Seq<char>> = if primary@.len() == 0 {
        seq!["primary_language not set (PUT /api/v1/config)"@]
    } else if !keys.contains(primary@) {
        seq!["primary_language '"@ + primary@ + "' not found in language definitions"@]
    } else {
        Seq::empty()
    };
    if primary.is_empty() {
        missing.push(String::from_str("primary_language not set (PUT /api/v1/config)"));
    } else if !has_key(langs, primary) {
        missing.push(concat3("primary_language '", primary, "' not found in language definitions"));
    }
    assert(views(missing@) =~= a + b);
    if instances.len() == 0 {
        missing.push(String::from_str("at least one instance required"));
    }
    assert(views(missing@) =~= missing_items(keys, primary@, instances@.len() == 0));
    missing
}

/// Completing setup: refused with a 400 listing what is missing (joined
/// with `"; "`), else the status of a completed setup.
pub fn complete_setup(missing: Vec<String>) -> (r: Result<SetupStatus, ApiError>)
    ensures
        missing@.len() == 0 <==> r is Ok,
        r matches Ok(s) ==> s.complete && s.missing@.len() == 0,
        r matches Err(e) ==> e@ == (STATUS_BAD_REQUEST, joined(views(missing@), "; "@)),
{
    if missing.len() > 0 {
        return Err(ApiError::BadRequest(join_strings(&missing, "; ")));
    }
    Ok(SetupStatus { complete: true, missing: Vec::new() })
}

} // verus!

verus! {

/// A configuration that the completion gate accepts loads: nothing missing
/// means at least one language, a primary language that is set and
/// defined, and at least one instance, which is what assembling the
/// configuration asks once setup is marked complete.
pub proof fn law_accepted_setup_loads(
    pairs: Seq<(String, LanguageDefinition)>,
    primary: Seq<char>,
    no_instances: bool,
)
    requires
        missing_items(definition_keys(pairs), primary, no_instances).len() == 0,
    ensures
        pairs.len() > 0,
        primary.len() > 0,
        crate::config::rows::pairs_map(pairs).dom().contains(primary),
        !no_instances,
{
    crate::config::rows::lemma_pairs_map_keys(pairs, primary);
    if pairs.len() == 0 {
        assert(definition_keys(pairs).len() == 0);
    }
}

} // verus!
