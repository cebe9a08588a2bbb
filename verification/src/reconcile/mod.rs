//! Filesystem reconciliation rules: which files are media, which libraries
//! a walked file is linked into, and how the walk reports what it did.
//!
//! The walk itself (reading storage trees, probing, linking) is done by
//! the caller with these rules.
pub mod walk;

use vstd::prelude::*;

use crate::config::InstanceConfig;
use crate::handler::targets::{
    instances_for_languages, kind_lang_targets, lemma_kind_lang_targets_bounded, names_instance,
    spec_download_targets, spec_primary_targets,
};
use crate::link::episode::{verdict, DedupVerdict};
use crate::link::path::{file_name, path_file_name};
use crate::text::{seq_has, sort_strings, sorted_views, vec_has, views};

verus! {

/// Summary of a regeneration walk.
#[derive(Debug, Clone)]
pub struct RegenerateResult {
    pub dry_run: bool,
    pub scanned: usize,
    pub linked: usize,
    pub skipped: usize,
    pub errors: Vec<String>,
    pub actions: Vec<RegenerateAction>,
}

/// One link the walk created (or would create in a dry run).
#[derive(Debug, Clone)]
pub struct RegenerateAction {
    pub instance: String,
    pub source: String,
    pub target: String,
    pub kind: String,
    pub languages: Vec<String>,
    pub is_multi_audio: bool,
}

/// Indices `i < n` of instances named `name`.
pub open spec fn named(insts: Seq<InstanceConfig>, name: Seq<char>, n: int) -> Seq<usize>
    decreases n,
{
    if n <= 0 {
        Seq::empty()
    } else {
        let prev = named(insts, name, n - 1);
        if insts[n - 1].name@ == name {
            prev.push((n - 1) as usize)
        } else {
            prev
        }
    }
}

/// The libraries a walked file of `all[src]` is linked into: for the
/// primary language, every instance of the same engine whose language the
/// file carries plus the source's own; for another language, the source's
/// own library (every instance bearing its name) when the file carries
/// its language, else none.
pub open spec fn spec_resolve_targets(all: Seq<InstanceConfig>, src: int, langs: Seq<String>, primary: Seq<char>) -> Seq<usize> {
    if all[src].language@ == primary {
        spec_primary_targets(all, src, langs, all[src].kind)
    } else if !seq_has(langs, all[src].language@) {
        Seq::empty()
    } else {
        named(all, all[src].name@, all.len() as int)
    }
}

/// Determine which instances receive a link for a walked file of `all[src]`.
pub fn resolve_targets(src: usize, all: &Vec<InstanceConfig>, languages: &Vec<String>, primary_language: &str) -> (r: Vec<usize>)
    requires
        src < all@.len(),
    ensures
        r@ == spec_resolve_targets(all@, src as int, languages@, primary_language@),
{
    let source = &all[src];
    if crate::text::str_eq(source.language.as_str(), primary_language) {
        let mut targets = instances_for_languages(all, source.kind, languages);
        let _len = all.len();
        proof {
            lemma_kind_lang_targets_bounded(all@, source.kind, languages@, all@.len() as int);
        }
        let mut found = false;
        let mut j: usize = 0;
        while j < targets.len()
            invariant
                forall|k: int| 0 <= k < targets@.len() ==> targets@[k] < all@.len(),
                j <= targets@.len(),
                found == exists|k: int| 0 <= k < j && #[trigger] all@[targets@[k] as int].name@ == source.name@,
            decreases targets@.len() - j,
        {
            if all[targets[j]].name == source.name {
                found = true;
            }
            j = j + 1;
        }
        if !found {
            targets.push(src);
        }
        return targets;
    }
    if !vec_has(languages, source.language.as_str()) {
        return Vec::new();
    }
    let mut out: Vec<usize> = Vec::new();
    let mut i: usize = 0;
    while i < all.len()
        invariant
            i <= all@.len(),
            src < all@.len(),
            source == &all@[src as int],
            out@ == named(all@, source.name@, i as int),
        decreases all@.len() - i,
    {
        if all[i].name == source.name {
            out.push(i);
        }
        i = i + 1;
    }
    out
}

proof fn lemma_named_unique(all: Seq<InstanceConfig>, src: int, n: int)
    requires
        0 <= src < all.len(),
        all.len() <= usize::MAX,
        0 <= n <= all.len(),
        forall|a: int, b: int| 0 <= a < b < all.len() ==> all[a].name@ != all[b].name@,
    ensures
        named(all, all[src].name@, n) == (if src < n { seq![src as usize] } else { Seq::<usize>::empty() }),
    decreases n,
{
    if n > 0 {
        lemma_named_unique(all, src, n - 1);
        if n - 1 != src {
            assert(all[n - 1].name@ != all[src].name@);
        }
    }
}

/// The regeneration walk links a file into exactly the libraries the import
/// handler would have linked it into, so a regenerate never undoes or
/// extends what imports did. (With two instances sharing a name the walk
/// links into both; instance names are unique in a stored configuration.)
pub proof fn law_regenerate_mirrors_import(all: Seq<InstanceConfig>, src: int, langs: Seq<String>, primary: Seq<char>)
    requires
        0 <= src < all.len(),
        all.len() <= usize::MAX,
        forall|a: int, b: int| 0 <= a < b < all.len() ==> all[a].name@ != all[b].name@,
    ensures
        spec_resolve_targets(all, src, langs, primary) == spec_download_targets(all, src, primary, langs, all[src].kind),
{
    lemma_named_unique(all, src, all.len() as int);
}

/// Which release of one episode (one `SxxEyy`) occupies `target`'s library
/// once releases from `arrivals` are walked in that order. Each release
/// goes by the keep-policy `verdict`: it is linked when the slot is free or
/// it wins (`Replace` evicts the incumbent first), and left out on `Skip`.
pub open spec fn occupant(target: InstanceConfig, arrivals: Seq<InstanceConfig>) -> Option<InstanceConfig>
    decreases arrivals.len(),
{
    if arrivals.len() == 0 {
        None
    } else {
        let occ = occupant(target, arrivals.drop_last());
        if verdict(occ, arrivals.last(), target) == DedupVerdict::Skip {
            occ
        } else {
            Some(arrivals.last())
        }
    }
}

/// No two of `arrivals` share a name.
pub open spec fn distinct_names(arrivals: Seq<InstanceConfig>) -> bool {
    forall|i: int, j: int| 0 <= i < j < arrivals.len() ==> arrivals[i].name@ != arrivals[j].name@
}

/// `inst` speaks the language of `target`'s library.
pub open spec fn native_to(inst: InstanceConfig, target: InstanceConfig) -> bool {
    inst.language@ == target.language@
}

/// With no native release, the first one walked stays.
proof fn lemma_occupant_without_native(target: InstanceConfig, arrivals: Seq<InstanceConfig>)
    requires
        distinct_names(arrivals),
        forall|j: int| 0 <= j < arrivals.len() ==> !native_to(#[trigger] arrivals[j], target),
    ensures
        arrivals.len() == 0 ==> occupant(target, arrivals) is None,
        arrivals.len() > 0 ==> occupant(target, arrivals) == Some(arrivals[0]),
    decreases arrivals.len(),
{
    if arrivals.len() > 0 {
        let init = arrivals.drop_last();
        assert forall|j: int| 0 <= j < init.len() implies !native_to(#[trigger] init[j], target) by {
            assert(init[j] == arrivals[j]);
        }
        lemma_occupant_without_native(target, init);
        if init.len() > 0 {
            assert(init[0] == arrivals[0]);
            assert(!native_to(arrivals[arrivals.len() - 1], target));
            assert(!native_to(arrivals[0], target));
            assert(arrivals[0].name@ != arrivals[arrivals.len() - 1].name@);
        }
    }
}

/// The one native release occupies the library, wherever it came in the walk.
proof fn lemma_occupant_native(target: InstanceConfig, arrivals: Seq<InstanceConfig>, k: int)
    requires
        distinct_names(arrivals),
        0 <= k < arrivals.len(),
        native_to(arrivals[k], target),
        forall|j: int| 0 <= j < arrivals.len() && j != k ==> !native_to(#[trigger] arrivals[j], target),
    ensures
        occupant(target, arrivals) == Some(arrivals[k]),
    decreases arrivals.len(),
{
    let n = arrivals.len() - 1;
    let init = arrivals.drop_last();
    if k == n {
        assert forall|j: int| 0 <= j < init.len() implies !native_to(#[trigger] init[j], target) by {
            assert(init[j] == arrivals[j]);
        }
        lemma_occupant_without_native(target, init);
        if init.len() > 0 {
            assert(init[0] == arrivals[0]);
            assert(!native_to(arrivals[0], target));
            assert(arrivals[0].name@ != arrivals[n].name@);
        }
    } else {
        assert forall|j: int| 0 <= j < init.len() && j != k implies !native_to(#[trigger] init[j], target) by {
            assert(init[j] == arrivals[j]);
        }
        assert(init[k] == arrivals[k]);
        lemma_occupant_native(target, init, k);
        assert(arrivals[k].name@ != arrivals[n].name@);
        assert(!native_to(arrivals[n], target));
    }
}

/// A whole regeneration run leaves each library the same whichever order
/// the instances are walked in, when one instance speaks the library's
/// language: for each episode, that instance's release is the one left
/// (one link per episode per library), walked first, last or in between.
/// (With no release in the library's language the first one walked stays,
/// as it does for imports.)
pub proof fn law_regenerate_order_independent(target: InstanceConfig, a: Seq<InstanceConfig>, b: Seq<InstanceConfig>, k: int)
    requires
        distinct_names(a),
        distinct_names(b),
        forall|i: int| 0 <= i < a.len() ==> b.contains(#[trigger] a[i]),
        forall|i: int| 0 <= i < b.len() ==> a.contains(#[trigger] b[i]),
        0 <= k < a.len(),
        native_to(a[k], target),
        forall|j: int| 0 <= j < a.len() && j != k ==> !native_to(#[trigger] a[j], target),
    ensures
        occupant(target, a) == Some(a[k]),
        occupant(target, b) == Some(a[k]),
{
    lemma_occupant_native(target, a, k);
    assert(b.contains(a[k]));
    let kb = choose|j: int| 0 <= j < b.len() && b[j] == a[k];
    assert forall|j: int| 0 <= j < b.len() && j != kb implies !native_to(#[trigger] b[j], target) by {
        if native_to(b[j], target) {
            assert(a.contains(b[j]));
            let i = choose|i: int| 0 <= i < a.len() && a[i] == b[j];
            assert(i == k);
            assert(b[j] == b[kb]);
            if j < kb {
                assert(b[j].name@ != b[kb].name@);
            } else {
                assert(b[kb].name@ != b[j].name@);
            }
        }
    }
    lemma_occupant_native(target, b, kb);
}

/// Language keys in ascending order, for deterministic reports.
pub fn sort_languages(languages: &Vec<String>) -> (r: Vec<String>)
    ensures
        sorted_views(views(r@)),
        views(r@).to_multiset() == views(languages@).to_multiset(),
{
    sort_strings(languages)
}

/// The extension of a file name: the text after its last `.`, when that
/// dot is not the first character.
pub open spec fn extension(name: Seq<char>) -> Option<Seq<char>> {
    if exists|i: int| 0 < i < name.len() && name[i] == '.' {
        let i = choose|i: int| 0 < i < name.len() && name[i] == '.'
            && forall|j: int| i < j < name.len() ==> name[j] != '.';
        Some(name.subrange(i + 1, name.len() as int))
    } else {
        None
    }
}

pub open spec fn media_extensions() -> Seq<Seq<char>> {
    seq!["mkv"@, "mp4"@, "avi"@, "ts"@, "m4v"@, "wmv"@, "flv"@, "webm"@]
}


/// A media file: its file name has one of the media extensions.
pub open spec fn spec_is_media_file(p: Seq<char>) -> bool {
    match file_name(p) {
        None => false,
        Some(n) => match extension(n) {
            None => false,
            Some(e) => media_extensions().contains(e),
        },
    }
}

fn last_dot(name: &Vec<char>) -> (r: Option<usize>)
    ensures
        match r {
            Some(i) => 0 < i < name@.len() && name@[i as int] == '.'
                && forall|j: int| i < j < name@.len() ==> name@[j] != '.',
            None => forall|j: int| 0 < j < name@.len() ==> name@[j] != '.',
        },
{
    let mut i: usize = name.len();
    while i > 1
        invariant
            i <= name@.len(),
            forall|j: int| i <= j < name@.len() ==> name@[j] != '.',
        decreases i,
    {
        i = i - 1;
        if name[i] == '.' {
            return Some(i);
        }
    }
    None
}

fn chars_in(cs: &Vec<char>, from: usize) -> (r: String)
    requires
        from <= cs@.len(),
    ensures
        r@ == cs@.subrange(from as int, cs@.len() as int),
{
    let mut piece: Vec<char> = Vec::new();
    let mut k: usize = from;
    while k < cs.len()
        invariant
            from <= k <= cs@.len(),
            piece@ == cs@.subrange(from as int, k as int),
        decreases cs@.len() - k,
    {
        piece.push(cs[k]);
        k = k + 1;
        assert(piece@ =~= cs@.subrange(from as int, k as int));
    }
    crate::text::string_from_chars(piece.as_slice())
}

/// A file name made of a non-empty stem, a dot and a dot-free suffix has
/// that suffix as its extension.
proof fn lemma_extension_of(stem: Seq<char>, e: Seq<char>)
    requires
        stem.len() > 0,
        forall|j: int| 0 <= j < e.len() ==> e[j] != '.',
    ensures
        extension(stem + seq!['.'] + e) == Some(e),
{
    let name = stem + seq!['.'] + e;
    let k = stem.len() as int;
    assert(name[k] == '.');
    assert forall|j: int| k < j < name.len() implies name[j] != '.' by {
        assert(name[j] == e[j - k - 1]);
    }
    let i = choose|i: int| 0 < i < name.len() && name[i] == '.'
        && forall|j: int| i < j < name.len() ==> name[j] != '.';
    if i > k {
        assert(name[i] == e[i - k - 1]);
    }
    assert(i == k);
    assert(name.subrange(k + 1, name.len() as int) =~= e);
}

/// A file named `stem.ext`, with a non-empty stem and `ext` one of `mkv`,
/// `mp4`, `avi`, `ts`, `m4v`, `wmv`, `flv` and `webm`, is a media file,
/// wherever it lies.
pub proof fn law_listed_extensions_are_media(p: Seq<char>, stem: Seq<char>, e: Seq<char>)
    requires
        file_name(p) == Some(stem + seq!['.'] + e),
        stem.len() > 0,
        e == "mkv"@ || e == "mp4"@ || e == "avi"@ || e == "ts"@ || e == "m4v"@ || e == "wmv"@
            || e == "flv"@ || e == "webm"@,
    ensures
        spec_is_media_file(p),
{
    reveal_strlit("mkv");
    reveal_strlit("mp4");
    reveal_strlit("avi");
    reveal_strlit("ts");
    reveal_strlit("m4v");
    reveal_strlit("wmv");
    reveal_strlit("flv");
    reveal_strlit("webm");
    lemma_extension_of(stem, e);
    let exts = media_extensions();
    if e == "mkv"@ {
        assert(exts[0] == e);
    } else if e == "mp4"@ {
        assert(exts[1] == e);
    } else if e == "avi"@ {
        assert(exts[2] == e);
    } else if e == "ts"@ {
        assert(exts[3] == e);
    } else if e == "m4v"@ {
        assert(exts[4] == e);
    } else if e == "wmv"@ {
        assert(exts[5] == e);
    } else if e == "flv"@ {
        assert(exts[6] == e);
    } else {
        assert(exts[7] == e);
    }
}

/// Only those extensions make a media file: a media file's name has one of
/// `mkv`, `mp4`, `avi`, `ts`, `m4v`, `wmv`, `flv` and `webm` as extension.
pub proof fn law_media_files_have_listed_extensions(p: Seq<char>)
    requires
        spec_is_media_file(p),
    ensures
        file_name(p) matches Some(n) && extension(n) matches Some(e) && (e == "mkv"@ || e == "mp4"@
            || e == "avi"@ || e == "ts"@ || e == "m4v"@ || e == "wmv"@ || e == "flv"@ || e == "webm"@),
{
    let n = file_name(p)->0;
    let e = extension(n)->0;
    let exts = media_extensions();
    let k = choose|k: int| 0 <= k < exts.len() && exts[k] == e;
    assert(k == 0 || k == 1 || k == 2 || k == 3 || k == 4 || k == 5 || k == 6 || k == 7);
}

/// True for files with a media extension (`mkv`, `mp4`, `avi`, `ts`,
/// `m4v`, `wmv`, `flv`, `webm`), compared case-sensitively.
pub fn is_media_file(path: &str) -> (r: bool)
    ensures
        r == spec_is_media_file(path@),
{
    let name = match path_file_name(path) {
        Some(n) => n,
        None => return false,
    };
    let cs = crate::text::chars_of(name.as_str());
    let dot = match last_dot(&cs) {
        Some(i) => i,
        None => return false,
    };
    proof {
        let i = choose|i: int| 0 < i < name@.len() && name@[i] == '.'
            && forall|j: int| i < j < name@.len() ==> name@[j] != '.';
        assert(i == dot as int);
    }
    let n = cs.len();
    let ext = chars_in(&cs, dot + 1);
    assert(spec_is_media_file(path@) == media_extensions().contains(ext@));
    let known: Vec<&str> = vec!["mkv", "mp4", "avi", "ts", "m4v", "wmv", "flv", "webm"];
    let mut k: usize = 0;
    while k < known.len()
        invariant
            known@.len() == 8,
            forall|j: int| 0 <= j < 8 ==> #[trigger] known@[j]@ == media_extensions()[j],
            k <= 8,
            forall|j: int| 0 <= j < k ==> media_extensions()[j] != ext@,
            spec_is_media_file(path@) == media_extensions().contains(ext@),
        decreases 8 - k,
    {
        if crate::text::str_eq(known[k], ext.as_str()) {
            assert(media_extensions()[k as int] == ext@);
            return true;
        }
        k = k + 1;
    }
    assert(!media_extensions().contains(ext@));
    false
}


/// Outcome of the per-library episode de-duplication check.
#[derive(Debug, Clone)]
pub enum Conflict {
    /// Link may be created; `Some(path)` is an incumbent link to evict first.
    Proceed(Option<String>),
    /// An incumbent release wins this library — leave it alone.
    Skip,
    /// The scan itself failed; the walk records it and moves on.
    Failed(String),
}

/// The `SxxEyy` key de-duplication uses for a walked file: episodes only
/// (movies never conflict), and only when the file name carries a marker.
pub fn episode_dedup_key(relative_episode: Option<&str>) -> (r: Option<(u32, u32)>)
    ensures
        r == match relative_episode {
            None => None,
            Some(rel) => match file_name(rel@) {
                None => None,
                Some(n) => crate::link::episode::first_marker(n, 0),
            },
        },
{
    let rel = match relative_episode {
        Some(r) => r,
        None => return None,
    };
    match path_file_name(rel) {
        None => None,
        Some(n) => crate::link::parse_season_episode(n.as_str()),
    }
}

/// The check's outcome once the library scan found `existing` (or nothing)
/// and the keep-policy gave `verdict` on it.
pub fn conflict_outcome(existing: Option<String>, verdict: DedupVerdict) -> (r: Conflict)
    ensures
        match existing {
            None => r matches Conflict::Proceed(None),
            Some(path) => match verdict {
                DedupVerdict::Skip => r is Skip,
                DedupVerdict::Replace => r == Conflict::Proceed(Some(path)),
                DedupVerdict::Link => r matches Conflict::Proceed(None),
            },
        },
{
    match existing {
        None => Conflict::Proceed(None),
        Some(path) => match verdict {
            DedupVerdict::Skip => Conflict::Skip,
            DedupVerdict::Replace => Conflict::Proceed(Some(path)),
            DedupVerdict::Link => Conflict::Proceed(None),
        },
    }
}

} // verus!
