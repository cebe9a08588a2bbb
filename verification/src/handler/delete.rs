//! Delete handling rules — Radarr `MovieDelete` / `MovieFileDelete`,
//! Sonarr `SeriesDelete` / `EpisodeFileDelete`.
//!
//! A delete honours the `deletedFiles` guard, resolves the library entry
//! from the payload, removes it storage-aware from every affected library
//! and, for a primary whole-title delete, fans out to sibling instances.
use vstd::prelude::*;

use super::error::HandlerError;
use super::import::{reports, Rejection};
use crate::config::{InstanceConfig, InstanceKind, LinkStrategy};
use crate::link::path::{file_name, join, path_file_name, path_join};
use crate::webhook::{RadarrMovieDelete, RadarrMovieFileDelete, SonarrEpisodeFileDelete, SonarrSeriesDelete};

verus! {

/// The bottom folder name of an arr `path` field.
pub open spec fn spec_folder_name(path: Option<String>) -> Result<Seq<char>, Rejection> {
    match path {
        None => Err(Rejection::Missing("movie.folder_path|series.path")),
        Some(p) => match file_name(p@) {
            None => Err(Rejection::Malformed(p@)),
            Some(n) => Ok(n),
        },
    }
}

/// Extract the bottom folder name from an arr `path` field.
pub fn folder_name_from_webhook(path: Option<&String>) -> (r: Result<String, HandlerError>)
    ensures
        match spec_folder_name(match path {
            Some(p) => Some(*p),
            None => None,
        }) {
            Ok(n) => r matches Ok(s) && s@ == n,
            Err(rej) => r matches Err(e) && reports(e, rej),
        },
{
    let p = match path {
        Some(p) => p,
        None => return Err(HandlerError::MissingField("movie.folder_path|series.path")),
    };
    match path_file_name(p.as_str()) {
        Some(n) => Ok(n),
        None => Err(HandlerError::MalformedPath(p.clone())),
    }
}

/// How a library entry of `target` is treated when `source` deletes it.
#[derive(Debug, Clone, Copy, PartialEq, Eq, Structural)]
pub enum UnlinkRule {
    /// Remove it.
    Always,
    /// Remove it only when it resolves into the source's storage.
    IfResolvesIntoSource,
    /// Remove it unless it is the last hardlink to its data.
    UnlessLastHardlink,
}

/// The storage-aware rule for one library: the source's own library is
/// always cleared; a symlink library only loses entries served from the
/// source's storage; a hardlink library loses a mirrored folder outright,
/// but keeps an episode file that is the last link to its data.
pub open spec fn spec_unlink_rule(target: InstanceConfig, source: InstanceConfig, folder_level: bool) -> UnlinkRule {
    if target.name@ == source.name@ {
        UnlinkRule::Always
    } else {
        match target.link_strategy {
            LinkStrategy::Symlink => UnlinkRule::IfResolvesIntoSource,
            LinkStrategy::Hardlink => if folder_level {
                UnlinkRule::Always
            } else {
                UnlinkRule::UnlessLastHardlink
            },
        }
    }
}

/// The storage-aware rule for `target` when `source` deletes an entry
/// (`folder_level` for a movie or series folder, else an episode file).
pub fn unlink_rule(target: &InstanceConfig, source: &InstanceConfig, folder_level: bool) -> (r: UnlinkRule)
    ensures
        r == spec_unlink_rule(*target, *source, folder_level),
{
    if target.name == source.name {
        return UnlinkRule::Always;
    }
    match target.link_strategy {
        LinkStrategy::Symlink => UnlinkRule::IfResolvesIntoSource,
        LinkStrategy::Hardlink => if folder_level {
            UnlinkRule::Always
        } else {
            UnlinkRule::UnlessLastHardlink
        },
    }
}

/// Whether the entry goes, given what probing the library reported.
pub open spec fn spec_should_unlink(rule: UnlinkRule, resolves_into_source: bool, is_last_hardlink: bool) -> bool {
    match rule {
        UnlinkRule::Always => true,
        UnlinkRule::IfResolvesIntoSource => resolves_into_source,
        UnlinkRule::UnlessLastHardlink => !is_last_hardlink,
    }
}

pub fn should_unlink(rule: UnlinkRule, resolves_into_source: bool, is_last_hardlink: bool) -> (r: bool)
    ensures
        r == spec_should_unlink(rule, resolves_into_source, is_last_hardlink),
{
    match rule {
        UnlinkRule::Always => true,
        UnlinkRule::IfResolvesIntoSource => resolves_into_source,
        UnlinkRule::UnlessLastHardlink => !is_last_hardlink,
    }
}

/// A delete never takes from another instance's library a symlink served by
/// other storage, nor an episode file that is the last hardlink to its data.
pub proof fn law_delete_keeps_foreign_data(
    target: InstanceConfig,
    source: InstanceConfig,
    folder_level: bool,
    resolves_into_source: bool,
    is_last_hardlink: bool,
)
    requires
        target.name@ != source.name@,
    ensures
        target.link_strategy == LinkStrategy::Symlink && !resolves_into_source
            ==> !spec_should_unlink(spec_unlink_rule(target, source, folder_level), resolves_into_source, is_last_hardlink),
        target.link_strategy == LinkStrategy::Hardlink && !folder_level && is_last_hardlink
            ==> !spec_should_unlink(spec_unlink_rule(target, source, folder_level), resolves_into_source, is_last_hardlink),
{
}

/// Where a delete applies.
#[derive(Debug, Clone, Copy, PartialEq, Eq, Structural)]
pub enum DeleteScope {
    /// Every library of the event's engine, storage-aware.
    Everywhere,
    /// Only the deleting instance's own library.
    LocalOnly,
}

/// Everything a delete does.
#[derive(Debug, Clone)]
pub struct DeletePlan {
    /// The library entry, relative to a library root.
    pub relative: String,
    /// `true` for a movie or series folder, `false` for an episode file.
    pub folder_level: bool,
    pub scope: DeleteScope,
    /// Whether sibling instances are asked to delete the title too.
    pub propagate: bool,
}

/// What a delete amounts to, or why the payload is refused; `Ok(None)` when
/// the filesystem is left alone.
pub open spec fn spec_delete_plan(
    deleted_files: bool,
    entry: Result<Seq<char>, Rejection>,
    is_primary: bool,
    whole_title: bool,
) -> Result<Option<(Seq<char>, DeleteScope, bool)>, Rejection> {
    if !deleted_files {
        Ok(None)
    } else {
        match entry {
            Err(r) => Err(r),
            Ok(rel) => Ok(Some((
                rel,
                if is_primary { DeleteScope::Everywhere } else { DeleteScope::LocalOnly },
                is_primary && whole_title,
            ))),
        }
    }
}

/// `plan` matches the spec outcome `s`.
pub open spec fn plan_matches(r: Result<Option<DeletePlan>, HandlerError>, s: Result<Option<(Seq<char>, DeleteScope, bool)>, Rejection>, folder_level: bool) -> bool {
    match s {
        Ok(None) => r matches Ok(None),
        Ok(Some((rel, scope, prop))) => r matches Ok(Some(p)) && p.relative@ == rel && p.scope == scope
            && p.propagate == prop && p.folder_level == folder_level,
        Err(rej) => r matches Err(e) && reports(e, rej),
    }
}

fn plan_of(folder: Result<String, HandlerError>, is_primary: bool, whole_title: bool, folder_level: bool) -> (r: Result<Option<DeletePlan>, HandlerError>)
    ensures
        match folder {
            Ok(rel) => r matches Ok(Some(p)) && p.relative == rel
                && p.scope == (if is_primary { DeleteScope::Everywhere } else { DeleteScope::LocalOnly })
                && p.propagate == (is_primary && whole_title) && p.folder_level == folder_level,
            Err(e) => r == Err::<Option<DeletePlan>, HandlerError>(e),
        },
{
    match folder {
        Ok(relative) => Ok(Some(DeletePlan {
            relative,
            folder_level,
            scope: if is_primary { DeleteScope::Everywhere } else { DeleteScope::LocalOnly },
            propagate: is_primary && whole_title,
        })),
        Err(e) => Err(e),
    }
}

/// Plan a Radarr `MovieDelete` by an instance (`is_primary` when it speaks
/// the primary language). Deletes with `deletedFiles = false` leave the
/// filesystem alone; a primary delete propagates to siblings.
pub fn plan_radarr_movie_delete(event: &RadarrMovieDelete, is_primary: bool) -> (r: Result<Option<DeletePlan>, HandlerError>)
    ensures
        match event.movie {
            None => r == Err::<Option<DeletePlan>, HandlerError>(HandlerError::MissingField("movie")),
            Some(m) => plan_matches(r, spec_delete_plan(event.deleted_files, spec_folder_name(m.folder_path), is_primary, true), true),
        },
{
    let movie = match &event.movie {
        Some(m) => m,
        None => return Err(HandlerError::MissingField("movie")),
    };
    if !event.deleted_files {
        return Ok(None);
    }
    plan_of(folder_name_from_webhook(movie.folder_path.as_ref()), is_primary, true, true)
}

/// Plan a Radarr `MovieFileDelete`: the file is gone by definition, and the
/// delete never propagates (siblings own their copies independently).
pub fn plan_radarr_movie_file_delete(event: &RadarrMovieFileDelete, is_primary: bool) -> (r: Result<Option<DeletePlan>, HandlerError>)
    ensures
        match event.movie {
            None => r == Err::<Option<DeletePlan>, HandlerError>(HandlerError::MissingField("movie")),
            Some(m) => plan_matches(r, spec_delete_plan(true, spec_folder_name(m.folder_path), is_primary, false), true),
        },
{
    let movie = match &event.movie {
        Some(m) => m,
        None => return Err(HandlerError::MissingField("movie")),
    };
    plan_of(folder_name_from_webhook(movie.folder_path.as_ref()), is_primary, false, true)
}

/// Plan a Sonarr `SeriesDelete`.
pub fn plan_sonarr_series_delete(event: &SonarrSeriesDelete, is_primary: bool) -> (r: Result<Option<DeletePlan>, HandlerError>)
    ensures
        match event.series {
            None => r == Err::<Option<DeletePlan>, HandlerError>(HandlerError::MissingField("series")),
            Some(s) => plan_matches(r, spec_delete_plan(event.deleted_files, spec_folder_name(s.path), is_primary, true), true),
        },
{
    let series = match &event.series {
        Some(s) => s,
        None => return Err(HandlerError::MissingField("series")),
    };
    if !event.deleted_files {
        return Ok(None);
    }
    plan_of(folder_name_from_webhook(series.path.as_ref()), is_primary, true, true)
}

/// Plan a Sonarr `EpisodeFileDelete`: one episode file, never propagated.
pub fn plan_sonarr_episode_file_delete(event: &SonarrEpisodeFileDelete, is_primary: bool) -> (r: Result<Option<DeletePlan>, HandlerError>)
    ensures
        match event.series {
            None => r == Err::<Option<DeletePlan>, HandlerError>(HandlerError::MissingField("series")),
            Some(s) => match event.episode_file {
                None => r == Err::<Option<DeletePlan>, HandlerError>(HandlerError::MissingField("episode_file")),
                Some(ef) => match spec_folder_name(s.path) {
                    Err(rej) => r matches Err(e) && reports(e, rej),
                    Ok(folder) => match ef.relative_path {
                        None => r == Err::<Option<DeletePlan>, HandlerError>(HandlerError::MissingField("episode_file.relative_path")),
                        Some(inner) => plan_matches(
                            r,
                            spec_delete_plan(true, Ok(join(folder, inner@)), is_primary, false),
                            false,
                        ),
                    },
                },
            },
        },
{
    let series = match &event.series {
        Some(s) => s,
        None => return Err(HandlerError::MissingField("series")),
    };
    let ef = match &event.episode_file {
        Some(f) => f,
        None => return Err(HandlerError::MissingField("episode_file")),
    };
    let folder = folder_name_from_webhook(series.path.as_ref())?;
    let inner = match &ef.relative_path {
        Some(p) => p,
        None => return Err(HandlerError::MissingField("episode_file.relative_path")),
    };
    let relative = path_join(folder.as_str(), inner.as_str());
    plan_of(Ok(relative), is_primary, false, false)
}

/// A file-level delete (one movie file, one episode file) never fans out
/// to sibling instances, and a delete that did not remove files leaves
/// every library untouched.
pub proof fn law_file_deletes_never_propagate(entry: Result<Seq<char>, Rejection>, is_primary: bool, deleted_files: bool)
    ensures
        spec_delete_plan(deleted_files, entry, is_primary, false) matches Ok(Some((_, _, prop))) ==> !prop,
        !deleted_files ==> spec_delete_plan(deleted_files, entry, is_primary, true) == Ok::<Option<(Seq<char>, DeleteScope, bool)>, Rejection>(None),
{
}

/// What a delete removes from one library, whatever probing the library
/// reported: the deleting instance's own library entry always goes; a
/// hardlinked mirror folder of another instance always goes; another
/// instance's symlink goes exactly when it resolves into the deleting
/// instance's storage; another instance's hardlinked episode file goes
/// unless it is the last link to its data.
pub proof fn law_what_a_delete_removes(
    target: InstanceConfig,
    source: InstanceConfig,
    folder_level: bool,
    resolves_into_source: bool,
    is_last_hardlink: bool,
)
    ensures
        ({
            let removed = spec_should_unlink(
                spec_unlink_rule(target, source, folder_level),
                resolves_into_source,
                is_last_hardlink,
            );
            &&& target.name@ == source.name@ ==> removed
            &&& target.name@ != source.name@ && target.link_strategy == LinkStrategy::Hardlink && folder_level
                ==> removed
            &&& target.name@ != source.name@ && target.link_strategy == LinkStrategy::Symlink
                ==> removed == resolves_into_source
            &&& target.name@ != source.name@ && target.link_strategy == LinkStrategy::Hardlink && !folder_level
                ==> removed == !is_last_hardlink
        }),
{
}

} // verus!
