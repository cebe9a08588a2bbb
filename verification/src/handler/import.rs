//! Radarr and Sonarr `Download` handling rules (import and upgrade).
//!
//! The handler reads the paths a webhook carries, has the file probed,
//! then links it into every library it can serve. This module holds the
//! steps around the probe: what a payload must carry, the fallback for
//! untagged files, and the plan of unlinks, links and sibling adds.
use vstd::prelude::*;

use super::error::HandlerError;
use super::targets::{
    add_targets, download_link_targets, propagate_add_targets, spec_download_targets,
    spec_upgrade_unlink_targets, upgrade_unlink_targets,
};
use crate::config::{InstanceConfig, InstanceKind};
use crate::detection::DetectionResult;
use crate::link::path::{file_name, join, path_file_name, path_join, path_starts_with, starts_with};
use crate::text::seq_has;
use crate::webhook::{RadarrDownload, SonarrDownload};

verus! {

/// Paths a Radarr import works on, read from the webhook.
#[derive(Debug, Clone)]
pub struct RadarrImport {
    /// The downloaded file, probed for its languages.
    pub file_path: String,
    /// The movie folder's own name, linked into libraries.
    pub folder_name: String,
}

/// Paths a Sonarr import works on, read from the webhook.
#[derive(Debug, Clone)]
pub struct SonarrImport {
    /// The downloaded file, probed for its languages.
    pub file_path: String,
    /// `series folder / episode path inside it`, linked into libraries.
    pub relative_path: String,
    /// Season and episode number of the first episode the event names.
    pub episode: Option<(u32, u32)>,
}

/// Why a payload is refused before any file is touched.
pub enum Rejection {
    /// A required field is absent.
    Missing(&'static str),
    /// A path is unusable.
    Malformed(Seq<char>),
}

/// `e` is the handler error reporting `r`.
pub open spec fn reports(e: HandlerError, r: Rejection) -> bool {
    match r {
        Rejection::Missing(f) => e == HandlerError::MissingField(f),
        Rejection::Malformed(p) => e matches HandlerError::MalformedPath(q) && q@ == p,
    }
}

/// What a Radarr `Download` payload yields (file path, folder name), or the
/// first thing wrong with it.
pub open spec fn spec_radarr_import(event: RadarrDownload, media_base: Seq<char>) -> Result<(Seq<char>, Seq<char>), Rejection> {
    match event.movie {
        None => Err(Rejection::Missing("movie")),
        Some(movie) => match event.movie_file {
            None => Err(Rejection::Missing("movie_file")),
            Some(mf) => {
                let file = match mf.path {
                    Some(p) => Some(p@),
                    None => match mf.relative_path {
                        Some(p) => Some(p@),
                        None => None,
                    },
                };
                match file {
                    None => Err(Rejection::Missing("movie_file.path")),
                    Some(f) => match movie.folder_path {
                        None => Err(Rejection::Missing("movie.folder_path")),
                        Some(folder) => match file_name(folder@) {
                            None => Err(Rejection::Malformed(folder@)),
                            Some(name) => if starts_with(f, media_base) {
                                Ok((f, name))
                            } else {
                                Err(Rejection::Malformed(f))
                            },
                        },
                    },
                }
            },
        },
    }
}

/// Read and check the paths of a Radarr `Download` payload: the file must
/// lie under the media root, the movie folder must have a name.
pub fn radarr_import_paths(event: &RadarrDownload, media_base: &str) -> (r: Result<RadarrImport, HandlerError>)
    ensures
        match spec_radarr_import(*event, media_base@) {
            Ok((f, n)) => r matches Ok(imp) && imp.file_path@ == f && imp.folder_name@ == n,
            Err(rej) => r matches Err(e) && reports(e, rej),
        },
{
    let movie = match &event.movie {
        Some(m) => m,
        None => return Err(HandlerError::MissingField("movie")),
    };
    let mf = match &event.movie_file {
        Some(f) => f,
        None => return Err(HandlerError::MissingField("movie_file")),
    };
    let file_path: &String = match &mf.path {
        Some(p) => p,
        None => match &mf.relative_path {
            Some(p) => p,
            None => return Err(HandlerError::MissingField("movie_file.path")),
        },
    };
    let folder_path = match &movie.folder_path {
        Some(p) => p,
        None => return Err(HandlerError::MissingField("movie.folder_path")),
    };
    let folder_name = match path_file_name(folder_path.as_str()) {
        Some(n) => n,
        None => return Err(HandlerError::MalformedPath(folder_path.clone())),
    };
    if !path_starts_with(file_path.as_str(), media_base) {
        return Err(HandlerError::MalformedPath(file_path.clone()));
    }
    Ok(RadarrImport { file_path: file_path.clone(), folder_name })
}

/// What a Sonarr `Download` payload yields (file path, relative path), or
/// the first thing wrong with it.
pub open spec fn spec_sonarr_import(event: SonarrDownload, media_base: Seq<char>) -> Result<(Seq<char>, Seq<char>), Rejection> {
    match event.series {
        None => Err(Rejection::Missing("series")),
        Some(series) => match event.episode_file {
            None => Err(Rejection::Missing("episode_file")),
            Some(ef) => match ef.path {
                None => Err(Rejection::Missing("episode_file.path")),
                Some(f) => match series.path {
                    None => Err(Rejection::Missing("series.path")),
                    Some(sp) => match file_name(sp@) {
                        None => Err(Rejection::Malformed(sp@)),
                        Some(series_folder) => match ef.relative_path {
                            None => Err(Rejection::Missing("episode_file.relative_path")),
                            Some(rel) => if starts_with(f@, media_base) {
                                Ok((f@, join(series_folder, rel@)))
                            } else {
                                Err(Rejection::Malformed(f@))
                            },
                        },
                    },
                },
            },
        },
    }
}

/// Read and check the paths of a Sonarr `Download` payload.
pub fn sonarr_import_paths(event: &SonarrDownload, media_base: &str) -> (r: Result<SonarrImport, HandlerError>)
    ensures
        match spec_sonarr_import(*event, media_base@) {
            Ok((f, rel)) => r matches Ok(imp) && imp.file_path@ == f && imp.relative_path@ == rel
                && imp.episode == (if event.episodes@.len() > 0 {
                    Some((event.episodes@[0].season_number, event.episodes@[0].episode_number))
                } else {
                    None::<(u32, u32)>
                }),
            Err(rej) => r matches Err(e) && reports(e, rej),
        },
{
    let series = match &event.series {
        Some(s) => s,
        None => return Err(HandlerError::MissingField("series")),
    };
    let ef = match &event.episode_file {
        Some(f) => f,
        None => return Err(HandlerError::MissingField("episode_file")),
    };
    let file_path = match &ef.path {
        Some(p) => p,
        None => return Err(HandlerError::MissingField("episode_file.path")),
    };
    let series_path = match &series.path {
        Some(p) => p,
        None => return Err(HandlerError::MissingField("series.path")),
    };
    let series_folder = match path_file_name(series_path.as_str()) {
        Some(n) => n,
        None => return Err(HandlerError::MalformedPath(series_path.clone())),
    };
    let episode_relative = match &ef.relative_path {
        Some(p) => p,
        None => return Err(HandlerError::MissingField("episode_file.relative_path")),
    };
    let relative_path = path_join(series_folder.as_str(), episode_relative.as_str());
    if !path_starts_with(file_path.as_str(), media_base) {
        return Err(HandlerError::MalformedPath(file_path.clone()));
    }
    let episode = if event.episodes.len() > 0 {
        Some((event.episodes[0].season_number, event.episodes[0].episode_number))
    } else {
        None
    };
    Ok(SonarrImport { file_path: file_path.clone(), relative_path, episode })
}


/// Languages an import proceeds with: the detected ones, or the importing
/// instance's own language when the file carries no tag at all.
pub open spec fn effective_languages(detected: Seq<String>, own: String) -> Seq<String> {
    if detected.len() == 0 {
        seq![own]
    } else {
        detected
    }
}

/// Everything an import does once the file has been probed.
#[derive(Debug, Clone)]
pub struct DownloadPlan {
    /// Languages the import proceeds with (after the untagged fallback).
    pub languages: Vec<String>,
    /// Multi-audio flag the import proceeds with.
    pub is_multi_audio: bool,
    /// The file had no language tags and is assumed to be in the
    /// importing instance's language.
    pub fell_back: bool,
    /// Libraries whose previous link is removed first (upgrades only).
    pub unlink_targets: Vec<usize>,
    /// Libraries that receive a link.
    pub link_targets: Vec<usize>,
    /// Siblings asked to fetch their own copy (primary imports only).
    pub add_targets: Vec<usize>,
    /// An alternate imported a file without its own language: nothing is linked.
    pub wrong_language: bool,
}

/// Plan an import by `instances[src]` of a file with `detection`.
pub fn plan_download(
    instances: &Vec<InstanceConfig>,
    src: usize,
    primary: &str,
    detection: &DetectionResult,
    is_upgrade: bool,
    kind: InstanceKind,
) -> (p: DownloadPlan)
    requires
        src < instances@.len(),
    ensures
        p.fell_back == (detection.languages@.len() == 0),
        p.languages@ == effective_languages(detection.languages@, instances@[src as int].language),
        p.is_multi_audio == (if p.fell_back { false } else { detection.is_multi_audio }),
        p.unlink_targets@ == (if is_upgrade {
            spec_upgrade_unlink_targets(instances@, src as int, primary@, p.languages@, p.is_multi_audio, kind)
        } else {
            Seq::empty()
        }),
        p.link_targets@ == spec_download_targets(instances@, src as int, primary@, p.languages@, kind),
        p.add_targets@ == (if instances@[src as int].language@ == primary@ {
            add_targets(instances@, instances@[src as int], p.languages@, kind, instances@.len() as int)
        } else {
            Seq::empty()
        }),
        p.wrong_language == (instances@[src as int].language@ != primary@
            && !seq_has(p.languages@, instances@[src as int].language@)),
{
    let src_inst = &instances[src];
    let fell_back = detection.languages.len() == 0;
    let languages: Vec<String>;
    let is_multi_audio: bool;
    if fell_back {
        let mut v: Vec<String> = Vec::new();
        v.push(src_inst.language.clone());
        assert(v@ =~= seq![src_inst.language]);
        languages = v;
        is_multi_audio = false;
    } else {
        languages = detection.languages.clone();
        is_multi_audio = detection.is_multi_audio;
    }
    let unlink_targets = if is_upgrade {
        upgrade_unlink_targets(instances, src, primary, &languages, is_multi_audio, kind)
    } else {
        Vec::new()
    };
    let link_targets = download_link_targets(instances, src, primary, &languages, kind);
    let is_primary = crate::text::str_eq(src_inst.language.as_str(), primary);
    let add = if is_primary {
        propagate_add_targets(instances, src_inst, &languages, kind)
    } else {
        Vec::new()
    };
    let wrong_language = !is_primary && !crate::text::vec_has(&languages, src_inst.language.as_str());
    DownloadPlan {
        languages,
        is_multi_audio,
        fell_back,
        unlink_targets,
        link_targets,
        add_targets: add,
        wrong_language,
    }
}

/// A file with no language tags is always linked into the library of the
/// instance that imported it.
pub proof fn law_untagged_file_reaches_importing_library(
    insts: Seq<InstanceConfig>,
    src: int,
    primary: Seq<char>,
    kind: InstanceKind,
)
    requires
        0 <= src < insts.len(),
        insts.len() <= usize::MAX,
    ensures
        super::targets::names_instance(
            insts,
            spec_download_targets(insts, src, primary, effective_languages(Seq::empty(), insts[src].language), kind),
            insts[src].name@,
        ),
{
    let langs = effective_languages(Seq::empty(), insts[src].language);
    assert(langs[0]@ == insts[src].language@);
    assert(seq_has(langs, insts[src].language@));
    if insts[src].language@ == primary {
        super::targets::law_primary_import_reaches_primary_library(insts, src, primary, langs, kind);
    } else {
        let t = spec_download_targets(insts, src, primary, langs, kind);
        assert(t[0] == src as usize);
        assert(insts[t[0] as int].name@ == insts[src].name@);
    }
}

} // verus!
