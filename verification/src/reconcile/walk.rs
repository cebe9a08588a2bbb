//! Bookkeeping of the regeneration walk: the summary it returns, the action
//! recorded for each link, and what happens to one target library.
use vstd::prelude::*;
use super::{Conflict, RegenerateAction, RegenerateResult};
use crate::config::InstanceConfig;
use crate::link::path::{join, path_join};
use crate::text::{concat2, concat3};

verus! {

/// Something the walk observed that the summary accounts for.
#[derive(Debug, Clone)]
pub enum WalkEvent {
    /// An instance's storage directory could not be listed.
    StorageUnreadable { instance: String, message: String },
    /// A movie folder holds no media file.
    NoMediaFile,
    /// A media file was found and probed.
    Scanned,
    /// Probing the file labelled `label` failed.
    ProbeFailed { label: String, message: String },
    /// The probe found no configured language.
    NoLanguages,
    /// An incumbent release keeps its place in a library.
    DuplicateSkipped,
    /// The duplicate scan of library `target` failed.
    ScanFailed { target: String, message: String },
    /// A link was created (or would be, in a dry run).
    Linked(RegenerateAction),
    /// Evicting the incumbent `path` from library `target` failed.
    EvictFailed { target: String, path: String, message: String },
    /// Linking `source`/`display` into library `target` failed.
    LinkFailed { source: String, display: String, target: String, message: String },
}

/// What the walk does for one target library.
#[derive(Debug, Clone)]
pub enum TargetPlan {
    /// An incumbent wins: count the file as skipped.
    Skip,
    /// The duplicate scan failed: record the error.
    ScanFailed(String),
    /// Dry run: record the action without linking.
    DryRun,
    /// Link, after evicting the incumbent at the given path if there is one.
    Link { evict: Option<String> },
}

/// The counters and lists of `r` after `event`, relative to `before`.
pub open spec fn recorded(before: RegenerateResult, event: WalkEvent, r: RegenerateResult) -> bool {
    &&& r.dry_run == before.dry_run
    &&& r.scanned == before.scanned + (if event is Scanned { 1int } else { 0int })
    &&& r.skipped == before.skipped + (if event is NoMediaFile || event is NoLanguages || event is DuplicateSkipped { 1int } else { 0int })
    &&& r.linked == before.linked + (if event is Linked { 1int } else { 0int })
    &&& r.actions@ == match event {
        WalkEvent::Linked(a) => before.actions@.push(a),
        _ => before.actions@,
    }
    &&& match event {
        WalkEvent::StorageUnreadable { instance, message } => r.errors@.len() == before.errors@.len() + 1
            && r.errors@.drop_last() == before.errors@
            && r.errors@.last()@ == instance@ + ": cannot read storage: "@ + message@,
        WalkEvent::ProbeFailed { label, message } => r.errors@.len() == before.errors@.len() + 1
            && r.errors@.drop_last() == before.errors@
            && r.errors@.last()@ == label@ + ": ffprobe failed: "@ + message@,
        WalkEvent::ScanFailed { target, message } => r.errors@.len() == before.errors@.len() + 1
            && r.errors@.drop_last() == before.errors@
            && r.errors@.last()@ == target@ + ": dedup scan failed: "@ + message@,
        WalkEvent::EvictFailed { target, path, message } => r.errors@.len() == before.errors@.len() + 1
            && r.errors@.drop_last() == before.errors@
            && r.errors@.last()@ == target@ + ": evict "@ + path@ + " failed: "@ + message@,
        WalkEvent::LinkFailed { source, display, target, message } => r.errors@.len() == before.errors@.len() + 1
            && r.errors@.drop_last() == before.errors@
            && r.errors@.last()@ == source@ + "/"@ + display@ + " -> "@ + target@ + ": "@ + message@,
        _ => r.errors@ == before.errors@,
    }
}

/// The summary counts one link per recorded action.
pub open spec fn consistent(r: RegenerateResult) -> bool {
    r.linked == r.actions@.len()
}

/// `event` would push a counter past `usize::MAX`.
pub open spec fn overflows(r: RegenerateResult, event: WalkEvent) -> bool {
    ||| event is Scanned && r.scanned == usize::MAX
    ||| (event is NoMediaFile || event is NoLanguages || event is DuplicateSkipped) && r.skipped == usize::MAX
    ||| event is Linked && r.linked == usize::MAX
}

impl RegenerateResult {
    /// The summary of a walk that has not started.
    pub fn new(dry_run: bool) -> (r: Self)
        ensures
            r.dry_run == dry_run,
            r.scanned == 0 && r.linked == 0 && r.skipped == 0,
            r.errors@.len() == 0 && r.actions@.len() == 0,
            consistent(r),
    {
        RegenerateResult { dry_run, scanned: 0, linked: 0, skipped: 0, errors: Vec::new(), actions: Vec::new() }
    }

    /// Account for `event`.
    pub fn record(&mut self, event: WalkEvent)
        requires
            !overflows(*old(self), event),
        ensures
            recorded(*old(self), event, *final(self)),
    {
        match event {
            WalkEvent::StorageUnreadable { instance, message } => {
                let e = concat3(instance.as_str(), ": cannot read storage: ", message.as_str());
                self.errors.push(e);
            },
            WalkEvent::NoMediaFile => {
                self.skipped = self.skipped + 1;
            },
            WalkEvent::Scanned => {
                self.scanned = self.scanned + 1;
            },
            WalkEvent::ProbeFailed { label, message } => {
                let e = concat3(label.as_str(), ": ffprobe failed: ", message.as_str());
                self.errors.push(e);
            },
            WalkEvent::NoLanguages => {
                self.skipped = self.skipped + 1;
            },
            WalkEvent::DuplicateSkipped => {
                self.skipped = self.skipped + 1;
            },
            WalkEvent::ScanFailed { target, message } => {
                let e = concat3(target.as_str(), ": dedup scan failed: ", message.as_str());
                self.errors.push(e);
            },
            WalkEvent::Linked(action) => {
                self.actions.push(action);
                self.linked = self.linked + 1;
            },
            WalkEvent::EvictFailed { target, path, message } => {
                let head = concat3(target.as_str(), ": evict ", path.as_str());
                let e = concat3(head.as_str(), " failed: ", message.as_str());
                self.errors.push(e);
            },
            WalkEvent::LinkFailed { source, display, target, message } => {
                let head = concat3(source.as_str(), "/", display.as_str());
                let mid = concat3(head.as_str(), " -> ", target.as_str());
                let e = concat3(mid.as_str(), ": ", message.as_str());
                self.errors.push(e);
            },
        }
        proof {
            if self.errors@.len() == old(self).errors@.len() + 1 {
                assert(self.errors@.drop_last() =~= old(self).errors@);
            }
        }
    }
}

/// Recording any event keeps one link counted per action: the summary's
/// `linked` is the number of actions it lists.
pub proof fn law_links_match_actions(before: RegenerateResult, event: WalkEvent, after: RegenerateResult)
    requires
        consistent(before),
        recorded(before, event, after),
    ensures
        consistent(after),
{
}

/// What the walk does for one target library, given the duplicate check.
pub fn plan_target(conflict: Conflict, dry_run: bool) -> (r: TargetPlan)
    ensures
        match conflict {
            Conflict::Skip => r is Skip,
            Conflict::Failed(m) => r == TargetPlan::ScanFailed(m),
            Conflict::Proceed(evict) => if dry_run { r is DryRun } else { r == (TargetPlan::Link { evict }) },
        },
{
    match conflict {
        Conflict::Skip => TargetPlan::Skip,
        Conflict::Failed(m) => TargetPlan::ScanFailed(m),
        Conflict::Proceed(evict) => {
            if dry_run {
                TargetPlan::DryRun
            } else {
                TargetPlan::Link { evict }
            }
        },
    }
}

/// The action recorded for linking `source_path` into `target`'s library:
/// an episode goes to its relative path there, a movie to a folder named
/// `display_name`.
pub fn regenerate_action(
    target: &InstanceConfig,
    source_path: &str,
    display_name: &str,
    relative_episode: Option<&str>,
    languages: Vec<String>,
    is_multi_audio: bool,
) -> (r: RegenerateAction)
    ensures
        r.instance@ == target.name@,
        r.source@ == source_path@,
        r.target@ == join(
            target.library_path@,
            match relative_episode {
                Some(rel) => rel@,
                None => display_name@,
            },
        ),
        r.kind@ == (if relative_episode is Some { "episode"@ } else { "movie"@ }),
        r.languages == languages,
        r.is_multi_audio == is_multi_audio,
{
    let (t, kind) = match relative_episode {
        Some(rel) => (path_join(target.library_path.as_str(), rel), "episode"),
        None => (path_join(target.library_path.as_str(), display_name), "movie"),
    };
    RegenerateAction {
        instance: target.name.clone(),
        source: String::from_str(source_path),
        target: t,
        kind: String::from_str(kind),
        languages,
        is_multi_audio,
    }
}

/// Path of an episode relative to its instance's storage:
/// `series/season/file`.
pub fn episode_relative_path(series: &str, season: &str, file: &str) -> (r: String)
    ensures
        r@ == join(join(series@, season@), file@),
{
    let s = path_join(series, season);
    path_join(s.as_str(), file)
}

/// The label of a probed episode in error messages:
/// `instance/series/season/file`.
pub fn episode_label(instance: &str, series: &str, season: &str, file: &str) -> (r: String)
    ensures
        r@ == instance@ + "/"@ + series@ + "/"@ + season@ + "/"@ + file@,
{
    let a = concat3(instance, "/", series);
    let b = concat3(a.as_str(), "/", season);
    concat3(b.as_str(), "/", file)
}

/// The label of a probed movie folder in error messages: `instance/folder`.
pub fn movie_label(instance: &str, folder: &str) -> (r: String)
    ensures
        r@ == instance@ + "/"@ + folder@,
{
    concat3(instance, "/", folder)
}

} // verus!
