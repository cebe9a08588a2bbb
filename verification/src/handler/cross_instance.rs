//! Cross-instance rules: which titles siblings are asked to add, and the
//! requests that ask them.
use vstd::prelude::*;

use crate::client::{
    AddMovieOptions, AddMovieRequest, AddSeriesOptions, AddSeriesRequest, Language, QualityProfile,
    RootFolder, SeasonInfo, SonarrSeries,
};
use crate::config::{InstanceConfig, InstanceKind, LanguagesConfig};
use crate::webhook::{RadarrMovieRef, SonarrSeriesRef};

verus! {

/// The title's original language is the instance's own: its id equals the
/// arr id of the instance's configured language. An unknown original
/// language, or an unconfigured instance language, keeps the cross-add.
pub open spec fn spec_is_own_language_original(cfg: LanguagesConfig, instance: InstanceConfig, original: Option<Language>) -> bool {
    match original {
        None => false,
        Some(o) => match cfg.definition_of(instance.language@) {
            None => false,
            Some(def) => o.id == match instance.kind {
                InstanceKind::Radarr => def.radarr_id,
                InstanceKind::Sonarr => def.sonarr_id,
            },
        },
    }
}

/// A title counts as an own-language original exactly when its original
/// language is known and its id is the arr id (Radarr's for a Radarr
/// instance, Sonarr's for a Sonarr one) of the instance's configured
/// language: so a title in another language is propagated, and of two
/// titles with different original ids at most one is held back.
pub proof fn law_own_original_matches_the_instance_language_id(
    cfg: LanguagesConfig,
    instance: InstanceConfig,
    original: Language,
    other: Language,
    def: crate::config::LanguageDefinition,
)
    requires
        cfg.definition_of(instance.language@) == Some(def),
    ensures
        spec_is_own_language_original(cfg, instance, Some(original)) <==> original.id == (
            if instance.kind == InstanceKind::Radarr { def.radarr_id } else { def.sonarr_id }),
        !spec_is_own_language_original(cfg, instance, None),
        spec_is_own_language_original(cfg, instance, Some(original))
            && spec_is_own_language_original(cfg, instance, Some(other)) ==> original.id == other.id,
{
}

/// When the instance's language is not configured, no title counts as its
/// own-language original: the cross-add goes ahead.
pub proof fn law_unconfigured_language_keeps_propagation(cfg: LanguagesConfig, instance: InstanceConfig, original: Option<Language>)
    requires
        cfg.definition_of(instance.language@) is None,
    ensures
        !spec_is_own_language_original(cfg, instance, original),
{
}

/// True when the title's original language is `instance`'s own; such a
/// title lives in that instance's library only.
pub fn is_own_language_original(cfg: &LanguagesConfig, instance: &InstanceConfig, original: Option<&Language>) -> (r: bool)
    requires
        cfg.well_formed(),
    ensures
        r == spec_is_own_language_original(*cfg, *instance, match original {
            Some(l) => Some(*l),
            None => None,
        }),
{
    let original = match original {
        Some(o) => o,
        None => return false,
    };
    let i = match cfg.find_definition(instance.language.as_str()) {
        Some(i) => i,
        None => return false,
    };
    let own = &cfg.definitions[i].1;
    let own_id = match instance.kind {
        InstanceKind::Radarr => own.radarr_id,
        InstanceKind::Sonarr => own.sonarr_id,
    };
    original.id == own_id
}

/// Why a target cannot receive an add.
#[derive(Debug, Clone, Copy, PartialEq, Eq, Structural)]
pub enum AddBlocked {
    /// The target has no quality profile.
    NoQualityProfile,
    /// The target has no root folder.
    NoRootFolder,
}

/// The add request for a movie: the target's first quality profile and
/// first root folder, monitored, with a search.
pub fn add_movie_request(
    movie: &RadarrMovieRef,
    profiles: &Vec<QualityProfile>,
    folders: &Vec<RootFolder>,
) -> (r: Result<AddMovieRequest, AddBlocked>)
    ensures
        profiles@.len() == 0 ==> r == Err::<AddMovieRequest, AddBlocked>(AddBlocked::NoQualityProfile),
        profiles@.len() > 0 && folders@.len() == 0 ==> r == Err::<AddMovieRequest, AddBlocked>(AddBlocked::NoRootFolder),
        profiles@.len() > 0 && folders@.len() > 0 ==> (r matches Ok(req) && {
            &&& req.title == movie.title
            &&& req.year == movie.year
            &&& req.tmdb_id == movie.tmdb_id
            &&& req.quality_profile_id == profiles@[0].id
            &&& req.root_folder_path == folders@[0].path
            &&& req.monitored
            &&& req.add_options.search_for_movie
        }),
{
    if profiles.len() == 0 {
        return Err(AddBlocked::NoQualityProfile);
    }
    if folders.len() == 0 {
        return Err(AddBlocked::NoRootFolder);
    }
    Ok(AddMovieRequest {
        title: movie.title.clone(),
        year: movie.year,
        tmdb_id: movie.tmdb_id,
        quality_profile_id: profiles[0].id,
        root_folder_path: folders[0].path.clone(),
        monitored: true,
        add_options: AddMovieOptions { search_for_movie: true },
    })
}

/// Season monitoring copied from the source's series record; none when
/// the source does not know the series.
pub fn source_seasons(series: Option<&SonarrSeries>) -> (r: (Vec<SeasonInfo>, Option<Language>))
    ensures
        match series {
            Some(s) => r.0@ == s.seasons@ && r.1 == s.original_language,
            None => r.0@.len() == 0 && r.1 is None,
        },
{
    match series {
        Some(s) => {
            let lang = match &s.original_language {
                Some(l) => Some(Language { id: l.id, name: l.name.clone() }),
                None => None,
            };
            (s.seasons.clone(), lang)
        },
        None => (Vec::new(), None),
    }
}

/// The add request for a series: first quality profile and root folder,
/// season folders, monitored, the source's season monitoring, with a
/// search for missing episodes.
pub fn add_series_request(
    series: &SonarrSeriesRef,
    profiles: &Vec<QualityProfile>,
    folders: &Vec<RootFolder>,
    seasons: &Vec<SeasonInfo>,
) -> (r: Result<AddSeriesRequest, AddBlocked>)
    ensures
        profiles@.len() == 0 ==> r == Err::<AddSeriesRequest, AddBlocked>(AddBlocked::NoQualityProfile),
        profiles@.len() > 0 && folders@.len() == 0 ==> r == Err::<AddSeriesRequest, AddBlocked>(AddBlocked::NoRootFolder),
        profiles@.len() > 0 && folders@.len() > 0 ==> (r matches Ok(req) && {
            &&& req.title == series.title
            &&& req.year is None
            &&& req.tvdb_id == series.tvdb_id
            &&& req.quality_profile_id == profiles@[0].id
            &&& req.root_folder_path == folders@[0].path
            &&& req.season_folder
            &&& req.monitored
            &&& req.seasons@ == seasons@
            &&& req.add_options.search_for_missing_episodes
        }),
{
    if profiles.len() == 0 {
        return Err(AddBlocked::NoQualityProfile);
    }
    if folders.len() == 0 {
        return Err(AddBlocked::NoRootFolder);
    }
    Ok(AddSeriesRequest {
        title: series.title.clone(),
        year: None,
        tvdb_id: series.tvdb_id,
        quality_profile_id: profiles[0].id,
        root_folder_path: folders[0].path.clone(),
        season_folder: true,
        monitored: true,
        seasons: seasons.clone(),
        add_options: AddSeriesOptions { search_for_missing_episodes: true },
    })
}

} // verus!

verus! {

/// Outcome label of one cross-instance add, as counted per source and target.
#[derive(Debug, Clone, Copy, PartialEq, Eq, Structural)]
pub enum AddOutcomeLabel {
    Created,
    AlreadyExisted,
    SkippedOriginal,
    Error,
}

impl AddOutcomeLabel {
    /// The label's text; the set of labels is closed, which keeps the
    /// counter's cardinality bounded.
    pub fn label(&self) -> (r: &'static str)
        ensures
            r@ == match self {
                AddOutcomeLabel::Created => "created"@,
                AddOutcomeLabel::AlreadyExisted => "already_existed"@,
                AddOutcomeLabel::SkippedOriginal => "skipped_original_language"@,
                AddOutcomeLabel::Error => "error"@,
            },
    {
        match self {
            AddOutcomeLabel::Created => "created",
            AddOutcomeLabel::AlreadyExisted => "already_existed",
            AddOutcomeLabel::SkippedOriginal => "skipped_original_language",
            AddOutcomeLabel::Error => "error",
        }
    }
}

/// One count of the cross-instance add counter.
#[derive(Debug, Clone)]
pub struct AddOutcomeRecord {
    pub source: String,
    pub target: String,
    pub outcome: AddOutcomeLabel,
}

/// A title whose original language is the source's own lives in the
/// source's library only: every target (indices into `instances`) is
/// counted as skipped and nothing is added.
pub fn skip_own_language_original(
    instances: &Vec<InstanceConfig>,
    source: &InstanceConfig,
    targets: &Vec<usize>,
) -> (r: Vec<AddOutcomeRecord>)
    requires
        forall|i: int| 0 <= i < targets@.len() ==> targets@[i] < instances@.len(),
    ensures
        r@.len() == targets@.len(),
        forall|i: int| #![trigger r@[i]] 0 <= i < r@.len() ==> {
            &&& r@[i].source@ == source.name@
            &&& r@[i].target@ == instances@[targets@[i] as int].name@
            &&& r@[i].outcome == AddOutcomeLabel::SkippedOriginal
        },
{
    let mut out: Vec<AddOutcomeRecord> = Vec::new();
    let mut i: usize = 0;
    while i < targets.len()
        invariant
            forall|j: int| 0 <= j < targets@.len() ==> targets@[j] < instances@.len(),
            i <= targets@.len(),
            out@.len() == i,
            forall|j: int| #![trigger out@[j]] 0 <= j < i ==> {
                &&& out@[j].source@ == source.name@
                &&& out@[j].target@ == instances@[targets@[j] as int].name@
                &&& out@[j].outcome == AddOutcomeLabel::SkippedOriginal
            },
        decreases targets@.len() - i,
    {
        let t = targets[i];
        out.push(AddOutcomeRecord {
            source: source.name.clone(),
            target: instances[t].name.clone(),
            outcome: AddOutcomeLabel::SkippedOriginal,
        });
        assert(out@[i as int].target@ == instances@[targets@[i as int] as int].name@);
        i = i + 1;
    }
    out
}

/// What adding a title to one sibling instance has come to so far.
#[derive(Debug, Clone, Copy, PartialEq, Eq, Structural)]
pub enum AddStepEvent {
    /// The sibling was asked whether it holds the title already.
    Looked { present: bool },
    /// The sibling's quality profiles and root folders were read; `usable`
    /// when both lists are non-empty, so that an add request could be built.
    Settings { usable: bool },
    /// The add created the title.
    Created,
    /// The add found the title there already (a lost race).
    AlreadyThere,
    /// A call to the sibling failed: the add itself when `during_add`, an
    /// earlier lookup otherwise.
    Failed { during_add: bool },
}

/// What to do next for that sibling.
#[derive(Debug, Clone, Copy, PartialEq, Eq, Structural)]
pub enum AddStepAction {
    /// Read its quality profiles and root folders and build the request.
    ReadSettings,
    /// Send the add request.
    Add,
    /// Done with this sibling: count the label, if any, and go on to the next.
    Next(Option<AddOutcomeLabel>),
    /// Stop propagating: count the label, if any, and report the failure.
    Abort(Option<AddOutcomeLabel>),
}

/// The per-sibling add decision: a sibling that holds the title already is
/// counted and skipped without a request; one offering no quality profile
/// or root folder is skipped uncounted; an add is counted as created or
/// already existing; a failed add is counted as an error and stops the
/// propagation, a failed lookup stops it uncounted.
pub open spec fn spec_add_step(event: AddStepEvent) -> AddStepAction {
    match event {
        AddStepEvent::Looked { present } => if present {
            AddStepAction::Next(Some(AddOutcomeLabel::AlreadyExisted))
        } else {
            AddStepAction::ReadSettings
        },
        AddStepEvent::Settings { usable } => if usable {
            AddStepAction::Add
        } else {
            AddStepAction::Next(None)
        },
        AddStepEvent::Created => AddStepAction::Next(Some(AddOutcomeLabel::Created)),
        AddStepEvent::AlreadyThere => AddStepAction::Next(Some(AddOutcomeLabel::AlreadyExisted)),
        AddStepEvent::Failed { during_add } => if during_add {
            AddStepAction::Abort(Some(AddOutcomeLabel::Error))
        } else {
            AddStepAction::Abort(None)
        },
    }
}

/// Decide the next step of adding a title to one sibling.
pub fn add_step(event: AddStepEvent) -> (r: AddStepAction)
    ensures
        r == spec_add_step(event),
{
    match event {
        AddStepEvent::Looked { present } => if present {
            AddStepAction::Next(Some(AddOutcomeLabel::AlreadyExisted))
        } else {
            AddStepAction::ReadSettings
        },
        AddStepEvent::Settings { usable } => if usable {
            AddStepAction::Add
        } else {
            AddStepAction::Next(None)
        },
        AddStepEvent::Created => AddStepAction::Next(Some(AddOutcomeLabel::Created)),
        AddStepEvent::AlreadyThere => AddStepAction::Next(Some(AddOutcomeLabel::AlreadyExisted)),
        AddStepEvent::Failed { during_add } => if during_add {
            AddStepAction::Abort(Some(AddOutcomeLabel::Error))
        } else {
            AddStepAction::Abort(None)
        },
    }
}

/// The actions taken for one sibling, given what each step reported:
/// after a `Next` or an `Abort` nothing more is done for it.
pub open spec fn add_trace(events: Seq<AddStepEvent>) -> Seq<AddStepAction>
    decreases events.len(),
{
    if events.len() == 0 {
        Seq::empty()
    } else {
        let a = spec_add_step(events[0]);
        if a is Next || a is Abort {
            seq![a]
        } else {
            seq![a] + add_trace(events.skip(1))
        }
    }
}

/// No add request goes to a sibling that already holds the title: it is
/// counted as already existing and left.
pub proof fn law_present_title_is_never_added(events: Seq<AddStepEvent>)
    requires
        events.len() > 0,
        events[0] == (AddStepEvent::Looked { present: true }),
    ensures
        add_trace(events) == seq![AddStepAction::Next(Some(AddOutcomeLabel::AlreadyExisted))],
{
}

/// Each sibling is counted at most once: every action for it but the last
/// is reading its settings or adding, and only the last may carry a label.
pub proof fn law_each_sibling_counted_once(events: Seq<AddStepEvent>)
    ensures
        forall|i: int| 0 <= i < add_trace(events).len() - 1 ==> {
            let a = #[trigger] add_trace(events)[i];
            a == AddStepAction::ReadSettings || a == AddStepAction::Add
        },
    decreases events.len(),
{
    if events.len() > 0 {
        let a = spec_add_step(events[0]);
        if !(a is Next || a is Abort) {
            law_each_sibling_counted_once(events.skip(1));
            let t = add_trace(events);
            let rest = add_trace(events.skip(1));
            assert forall|i: int| 0 <= i < t.len() - 1 implies {
                let b = #[trigger] t[i];
                b == AddStepAction::ReadSettings || b == AddStepAction::Add
            } by {
                if i > 0 {
                    assert(t[i] == rest[i - 1]);
                }
            }
        }
    }
}

} // verus!
