//! Which libraries and which sibling instances an event reaches.
//!
//! Instances are referred to by their index in the configured instance
//! list, in declaration order.
use vstd::prelude::*;

use crate::config::{InstanceConfig, InstanceKind};
use crate::text::{seq_has, vec_has};

verus! {

/// Indices `i < n`, in order, of instances of `kind` whose language is in `langs`.
pub open spec fn kind_lang_targets(insts: Seq<InstanceConfig>, kind: InstanceKind, langs: Seq<String>, n: int) -> Seq<usize>
    decreases n,
{
    if n <= 0 {
        Seq::empty()
    } else {
        let prev = kind_lang_targets(insts, kind, langs, n - 1);
        if insts[n - 1].kind == kind && seq_has(langs, insts[n - 1].language@) {
            prev.push((n - 1) as usize)
        } else {
            prev
        }
    }
}

/// Some index of `idx` names an instance called `name`.
pub open spec fn names_instance(insts: Seq<InstanceConfig>, idx: Seq<usize>, name: Seq<char>) -> bool {
    exists|j: int| 0 <= j < idx.len() && idx[j] < insts.len() && #[trigger] insts[idx[j] as int].name@ == name
}

/// Libraries that receive a link for a file the primary `src` imported:
/// every instance of `kind` whose language the file carries, plus the
/// primary's own library when no target already bears its name.
pub open spec fn spec_primary_targets(insts: Seq<InstanceConfig>, src: int, langs: Seq<String>, kind: InstanceKind) -> Seq<usize> {
    let t = kind_lang_targets(insts, kind, langs, insts.len() as int);
    if names_instance(insts, t, insts[src].name@) {
        t
    } else {
        t.push(src as usize)
    }
}

/// Libraries that receive a link when `src` imports a file carrying `langs`:
/// the primary rule for the primary language, otherwise `src`'s own library
/// exactly when the file carries `src`'s language.
pub open spec fn spec_download_targets(
    insts: Seq<InstanceConfig>,
    src: int,
    primary: Seq<char>,
    langs: Seq<String>,
    kind: InstanceKind,
) -> Seq<usize> {
    if insts[src].language@ == primary {
        spec_primary_targets(insts, src, langs, kind)
    } else if seq_has(langs, insts[src].language@) {
        seq![src as usize]
    } else {
        Seq::empty()
    }
}

/// Libraries whose old link an upgrade removes: every library of `kind`
/// carrying a detected language for a primary multi-audio file, else `src`'s own.
pub open spec fn spec_upgrade_unlink_targets(
    insts: Seq<InstanceConfig>,
    src: int,
    primary: Seq<char>,
    langs: Seq<String>,
    is_multi_audio: bool,
    kind: InstanceKind,
) -> Seq<usize> {
    if insts[src].language@ == primary && is_multi_audio {
        kind_lang_targets(insts, kind, langs, insts.len() as int)
    } else {
        seq![src as usize]
    }
}

/// A sibling that should be asked to fetch its own copy: same engine, not
/// `src`, another language, and a language the imported file lacks.
pub open spec fn is_add_target(i: InstanceConfig, src: InstanceConfig, langs: Seq<String>, kind: InstanceKind) -> bool {
    &&& i.kind == kind
    &&& i.name@ != src.name@
    &&& i.language@ != src.language@
    &&& !seq_has(langs, i.language@)
}

/// Indices `i < n` of add targets, in order.
pub open spec fn add_targets(insts: Seq<InstanceConfig>, src: InstanceConfig, langs: Seq<String>, kind: InstanceKind, n: int) -> Seq<usize>
    decreases n,
{
    if n <= 0 {
        Seq::empty()
    } else {
        let prev = add_targets(insts, src, langs, kind, n - 1);
        if is_add_target(insts[n - 1], src, langs, kind) {
            prev.push((n - 1) as usize)
        } else {
            prev
        }
    }
}

/// Indices `i < n` of instances of `kind` other than `src` by name.
pub open spec fn sibling_targets(insts: Seq<InstanceConfig>, src: InstanceConfig, kind: InstanceKind, n: int) -> Seq<usize>
    decreases n,
{
    if n <= 0 {
        Seq::empty()
    } else {
        let prev = sibling_targets(insts, src, kind, n - 1);
        if insts[n - 1].kind == kind && insts[n - 1].name@ != src.name@ {
            prev.push((n - 1) as usize)
        } else {
            prev
        }
    }
}

/// Siblings a delete fans out to: none when `src` does not propagate deletes.
pub open spec fn spec_delete_targets(insts: Seq<InstanceConfig>, src: InstanceConfig, kind: InstanceKind) -> Seq<usize> {
    if src.propagate_delete {
        sibling_targets(insts, src, kind, insts.len() as int)
    } else {
        Seq::empty()
    }
}

/// Instances of `kind` in the languages of a file.
pub fn instances_for_languages(instances: &Vec<InstanceConfig>, kind: InstanceKind, languages: &Vec<String>) -> (r: Vec<usize>)
    ensures
        r@ == kind_lang_targets(instances@, kind, languages@, instances@.len() as int),
{
    let mut out: Vec<usize> = Vec::new();
    let mut i: usize = 0;
    while i < instances.len()
        invariant
            i <= instances@.len(),
            out@ == kind_lang_targets(instances@, kind, languages@, i as int),
        decreases instances@.len() - i,
    {
        if instances[i].kind == kind && vec_has(languages, instances[i].language.as_str()) {
            out.push(i);
        }
        i = i + 1;
    }
    out
}

/// Whether some index of `idx` names an instance called `name`.
fn any_named(instances: &Vec<InstanceConfig>, idx: &Vec<usize>, name: &str) -> (r: bool)
    requires
        forall|j: int| 0 <= j < idx@.len() ==> idx@[j] < instances@.len(),
    ensures
        r == names_instance(instances@, idx@, name@),
{
    let mut j: usize = 0;
    while j < idx.len()
        invariant
            forall|k: int| 0 <= k < idx@.len() ==> idx@[k] < instances@.len(),
            j <= idx@.len(),
            forall|k: int| 0 <= k < j ==> #[trigger] instances@[idx@[k] as int].name@ != name@,
        decreases idx@.len() - j,
    {
        if crate::text::str_eq(instances[idx[j]].name.as_str(), name) {
            return true;
        }
        j = j + 1;
    }
    false
}

pub proof fn lemma_kind_lang_targets_bounded(insts: Seq<InstanceConfig>, kind: InstanceKind, langs: Seq<String>, n: int)
    requires
        0 <= n <= insts.len(),
        insts.len() <= usize::MAX,
    ensures
        forall|j: int| 0 <= j < kind_lang_targets(insts, kind, langs, n).len()
            ==> #[trigger] kind_lang_targets(insts, kind, langs, n)[j] < n,
        forall|j: int| 0 <= j < kind_lang_targets(insts, kind, langs, n).len() ==> {
            let i = #[trigger] kind_lang_targets(insts, kind, langs, n)[j] as int;
            insts[i].kind == kind && seq_has(langs, insts[i].language@)
        },
    decreases n,
{
    if n > 0 {
        lemma_kind_lang_targets_bounded(insts, kind, langs, n - 1);
        let prev = kind_lang_targets(insts, kind, langs, n - 1);
        let cur = kind_lang_targets(insts, kind, langs, n);
        assert forall|j: int| 0 <= j < cur.len() implies #[trigger] cur[j] < n && insts[cur[j] as int].kind == kind
            && seq_has(langs, insts[cur[j] as int].language@) by {
            if j < prev.len() {
                assert(cur[j] == prev[j]);
                assert(prev[j] < n - 1);
            } else {
                assert(insts[n - 1].kind == kind && seq_has(langs, insts[n - 1].language@));
                assert(cur == prev.push((n - 1) as usize));
                assert(cur[j] == (n - 1) as usize);
            }
        }
    }
}

/// Libraries that receive a link for a file the primary `src` imported.
pub fn primary_link_targets(instances: &Vec<InstanceConfig>, src: usize, languages: &Vec<String>, kind: InstanceKind) -> (r: Vec<usize>)
    requires
        src < instances@.len(),
    ensures
        r@ == spec_primary_targets(instances@, src as int, languages@, kind),
{
    let mut t = instances_for_languages(instances, kind, languages);
    let _len = instances.len();
    proof {
        lemma_kind_lang_targets_bounded(instances@, kind, languages@, instances@.len() as int);
    }
    if !any_named(instances, &t, instances[src].name.as_str()) {
        t.push(src);
    }
    t
}

/// Libraries that receive a link when `src` imports a file carrying `languages`.
pub fn download_link_targets(
    instances: &Vec<InstanceConfig>,
    src: usize,
    primary: &str,
    languages: &Vec<String>,
    kind: InstanceKind,
) -> (r: Vec<usize>)
    requires
        src < instances@.len(),
    ensures
        r@ == spec_download_targets(instances@, src as int, primary@, languages@, kind),
{
    if crate::text::str_eq(instances[src].language.as_str(), primary) {
        primary_link_targets(instances, src, languages, kind)
    } else if vec_has(languages, instances[src].language.as_str()) {
        let mut v: Vec<usize> = Vec::new();
        v.push(src);
        assert(v@ =~= seq![src]);
        v
    } else {
        Vec::new()
    }
}

/// Libraries whose previous link an upgrade removes.
pub fn upgrade_unlink_targets(
    instances: &Vec<InstanceConfig>,
    src: usize,
    primary: &str,
    languages: &Vec<String>,
    is_multi_audio: bool,
    kind: InstanceKind,
) -> (r: Vec<usize>)
    requires
        src < instances@.len(),
    ensures
        r@ == spec_upgrade_unlink_targets(instances@, src as int, primary@, languages@, is_multi_audio, kind),
{
    if crate::text::str_eq(instances[src].language.as_str(), primary) && is_multi_audio {
        instances_for_languages(instances, kind, languages)
    } else {
        let mut v: Vec<usize> = Vec::new();
        v.push(src);
        assert(v@ =~= seq![src]);
        v
    }
}

/// Siblings asked to add a title the source imported.
pub fn propagate_add_targets(
    instances: &Vec<InstanceConfig>,
    src: &InstanceConfig,
    languages: &Vec<String>,
    kind: InstanceKind,
) -> (r: Vec<usize>)
    ensures
        r@ == add_targets(instances@, *src, languages@, kind, instances@.len() as int),
{
    let mut out: Vec<usize> = Vec::new();
    let mut i: usize = 0;
    while i < instances.len()
        invariant
            i <= instances@.len(),
            out@ == add_targets(instances@, *src, languages@, kind, i as int),
        decreases instances@.len() - i,
    {
        let inst = &instances[i];
        if inst.kind == kind && inst.name != src.name && inst.language != src.language
            && !vec_has(languages, inst.language.as_str()) {
            out.push(i);
        }
        i = i + 1;
    }
    out
}

/// Siblings a delete of `src` fans out to.
pub fn propagate_delete_targets(instances: &Vec<InstanceConfig>, src: &InstanceConfig, kind: InstanceKind) -> (r: Vec<usize>)
    ensures
        r@ == spec_delete_targets(instances@, *src, kind),
{
    let mut out: Vec<usize> = Vec::new();
    if !src.propagate_delete {
        return out;
    }
    let mut i: usize = 0;
    while i < instances.len()
        invariant
            src.propagate_delete,
            i <= instances@.len(),
            out@ == sibling_targets(instances@, *src, kind, i as int),
        decreases instances@.len() - i,
    {
        if instances[i].kind == kind && instances[i].name != src.name {
            out.push(i);
        }
        i = i + 1;
    }
    out
}


pub proof fn lemma_add_targets_sound(insts: Seq<InstanceConfig>, src: InstanceConfig, langs: Seq<String>, kind: InstanceKind, n: int)
    requires
        0 <= n <= insts.len(),
        insts.len() <= usize::MAX,
    ensures
        forall|j: int| 0 <= j < add_targets(insts, src, langs, kind, n).len() ==> {
            let i = #[trigger] add_targets(insts, src, langs, kind, n)[j] as int;
            0 <= i < n && is_add_target(insts[i], src, langs, kind)
        },
    decreases n,
{
    if n > 0 {
        lemma_add_targets_sound(insts, src, langs, kind, n - 1);
        let prev = add_targets(insts, src, langs, kind, n - 1);
        let cur = add_targets(insts, src, langs, kind, n);
        assert forall|j: int| 0 <= j < cur.len() implies 0 <= #[trigger] cur[j] < n
            && is_add_target(insts[cur[j] as int], src, langs, kind) by {
            if j < prev.len() {
                assert(cur[j] == prev[j]);
            } else {
                assert(cur == prev.push((n - 1) as usize));
            }
        }
    }
}

pub proof fn lemma_sibling_targets_sound(insts: Seq<InstanceConfig>, src: InstanceConfig, kind: InstanceKind, n: int)
    requires
        0 <= n <= insts.len(),
        insts.len() <= usize::MAX,
    ensures
        forall|j: int| 0 <= j < sibling_targets(insts, src, kind, n).len() ==> {
            let i = #[trigger] sibling_targets(insts, src, kind, n)[j] as int;
            0 <= i < n && insts[i].kind == kind && insts[i].name@ != src.name@
        },
    decreases n,
{
    if n > 0 {
        lemma_sibling_targets_sound(insts, src, kind, n - 1);
        let prev = sibling_targets(insts, src, kind, n - 1);
        let cur = sibling_targets(insts, src, kind, n);
        assert forall|j: int| 0 <= j < cur.len() implies 0 <= #[trigger] cur[j] < n
            && insts[cur[j] as int].kind == kind && insts[cur[j] as int].name@ != src.name@ by {
            if j < prev.len() {
                assert(cur[j] == prev[j]);
            } else {
                assert(cur == prev.push((n - 1) as usize));
            }
        }
    }
}

/// A file the primary instance imports is always linked into the primary's
/// own library (a target bearing the primary's name is always present),
/// even when the file carries none of the primary's language.
pub proof fn law_primary_import_reaches_primary_library(
    insts: Seq<InstanceConfig>,
    src: int,
    primary: Seq<char>,
    langs: Seq<String>,
    kind: InstanceKind,
)
    requires
        0 <= src < insts.len(),
        insts.len() <= usize::MAX,
        insts[src].language@ == primary,
    ensures
        names_instance(insts, spec_download_targets(insts, src, primary, langs, kind), insts[src].name@),
{
    let t = kind_lang_targets(insts, kind, langs, insts.len() as int);
    lemma_kind_lang_targets_bounded(insts, kind, langs, insts.len() as int);
    if !names_instance(insts, t, insts[src].name@) {
        let r = t.push(src as usize);
        assert(r[t.len() as int] == src as usize);
        assert(insts[r[t.len() as int] as int].name@ == insts[src].name@);
    }
}

/// An alternate instance only ever links into its own library, and does so
/// exactly when the imported file carries its language.
pub proof fn law_alternate_import_stays_in_own_library(
    insts: Seq<InstanceConfig>,
    src: int,
    primary: Seq<char>,
    langs: Seq<String>,
    kind: InstanceKind,
)
    requires
        0 <= src < insts.len(),
        insts[src].language@ != primary,
    ensures
        forall|j: int| 0 <= j < spec_download_targets(insts, src, primary, langs, kind).len()
            ==> #[trigger] spec_download_targets(insts, src, primary, langs, kind)[j] == src as usize,
        spec_download_targets(insts, src, primary, langs, kind).len() > 0 <==> seq_has(langs, insts[src].language@),
{
}

/// Every library a primary import links into is the primary's own or an
/// instance of the event's engine whose language the file carries.
pub proof fn law_primary_targets_serve_detected_languages(
    insts: Seq<InstanceConfig>,
    src: int,
    primary: Seq<char>,
    langs: Seq<String>,
    kind: InstanceKind,
)
    requires
        0 <= src < insts.len(),
        insts.len() <= usize::MAX,
        insts[src].language@ == primary,
    ensures
        forall|j: int| 0 <= j < spec_download_targets(insts, src, primary, langs, kind).len() ==> {
            let t = #[trigger] spec_download_targets(insts, src, primary, langs, kind)[j] as int;
            t == src || (insts[t].kind == kind && seq_has(langs, insts[t].language@))
        },
{
    let t = kind_lang_targets(insts, kind, langs, insts.len() as int);
    lemma_kind_lang_targets_bounded(insts, kind, langs, insts.len() as int);
    let r = spec_download_targets(insts, src, primary, langs, kind);
    assert forall|j: int| 0 <= j < r.len() implies {
        let x = #[trigger] r[j] as int;
        x == src || (insts[x].kind == kind && seq_has(langs, insts[x].language@))
    } by {
        if j < t.len() {
            assert(r[j] == t[j]);
        }
    }
}

/// A sibling is never asked to fetch a language the imported file already
/// carries, nor the source's own language, nor is the source asked itself;
/// and only instances of the event's engine are asked.
pub proof fn law_add_targets_lack_the_file_language(
    insts: Seq<InstanceConfig>,
    src: InstanceConfig,
    langs: Seq<String>,
    kind: InstanceKind,
)
    requires
        insts.len() <= usize::MAX,
    ensures
        forall|j: int| 0 <= j < add_targets(insts, src, langs, kind, insts.len() as int).len() ==> {
            let i = #[trigger] add_targets(insts, src, langs, kind, insts.len() as int)[j] as int;
            &&& 0 <= i < insts.len()
            &&& insts[i].kind == kind
            &&& insts[i].name@ != src.name@
            &&& insts[i].language@ != src.language@
            &&& !seq_has(langs, insts[i].language@)
        },
{
    lemma_add_targets_sound(insts, src, langs, kind, insts.len() as int);
}

/// Deletes fan out only from an instance that opted in, and never back to
/// the deleting instance itself.
pub proof fn law_delete_fanout_requires_opt_in(insts: Seq<InstanceConfig>, src: InstanceConfig, kind: InstanceKind)
    requires
        insts.len() <= usize::MAX,
    ensures
        !src.propagate_delete ==> spec_delete_targets(insts, src, kind).len() == 0,
        forall|j: int| 0 <= j < spec_delete_targets(insts, src, kind).len() ==> {
            let i = #[trigger] spec_delete_targets(insts, src, kind)[j] as int;
            0 <= i < insts.len() && insts[i].kind == kind && insts[i].name@ != src.name@
        },
{
    lemma_sibling_targets_sound(insts, src, kind, insts.len() as int);
}

/// The instances of `kind` among the first `n` carrying a language of
/// `langs` are exactly those listed, each once, in index order.
proof fn lemma_kind_lang_members(insts: Seq<InstanceConfig>, kind: InstanceKind, langs: Seq<String>, n: int)
    requires
        0 <= n <= insts.len(),
        insts.len() <= usize::MAX,
    ensures
        forall|j: int| 0 <= j < kind_lang_targets(insts, kind, langs, n).len()
            ==> #[trigger] kind_lang_targets(insts, kind, langs, n)[j] < n,
        forall|i: int| 0 <= i < n ==> (kind_lang_targets(insts, kind, langs, n).contains(i as usize)
            <==> (#[trigger] insts[i].kind == kind && seq_has(langs, insts[i].language@))),
    decreases n,
{
    if n > 0 {
        lemma_kind_lang_members(insts, kind, langs, n - 1);
        let prev = kind_lang_targets(insts, kind, langs, n - 1);
        let cur = kind_lang_targets(insts, kind, langs, n);
        assert forall|i: int| 0 <= i < n implies (cur.contains(i as usize)
            <==> (#[trigger] insts[i].kind == kind && seq_has(langs, insts[i].language@))) by {
            let last = insts[n - 1];
            if last.kind == kind && seq_has(langs, last.language@) {
                assert(cur == prev.push((n - 1) as usize));
                if i == n - 1 {
                    assert(cur[prev.len() as int] == (n - 1) as usize);
                } else if cur.contains(i as usize) {
                    let j = choose|j: int| 0 <= j < cur.len() && cur[j] == i as usize;
                    if j < prev.len() {
                        assert(prev[j] == i as usize);
                    }
                } else if prev.contains(i as usize) {
                    let j = choose|j: int| 0 <= j < prev.len() && prev[j] == i as usize;
                    assert(cur[j] == i as usize);
                }
            } else if i == n - 1 {
                if prev.contains(i as usize) {
                    let j = choose|j: int| 0 <= j < prev.len() && prev[j] == i as usize;
                    assert(prev[j] < n - 1);
                }
            }
        }
    }
}

/// The siblings among the first `n` are exactly the other instances (by
/// name) of `kind`.
proof fn lemma_sibling_members(insts: Seq<InstanceConfig>, src: InstanceConfig, kind: InstanceKind, n: int)
    requires
        0 <= n <= insts.len(),
        insts.len() <= usize::MAX,
    ensures
        forall|j: int| 0 <= j < sibling_targets(insts, src, kind, n).len()
            ==> #[trigger] sibling_targets(insts, src, kind, n)[j] < n,
        forall|i: int| 0 <= i < n ==> (sibling_targets(insts, src, kind, n).contains(i as usize)
            <==> (#[trigger] insts[i].kind == kind && insts[i].name@ != src.name@)),
    decreases n,
{
    if n > 0 {
        lemma_sibling_members(insts, src, kind, n - 1);
        let prev = sibling_targets(insts, src, kind, n - 1);
        let cur = sibling_targets(insts, src, kind, n);
        assert forall|i: int| 0 <= i < n implies (cur.contains(i as usize)
            <==> (#[trigger] insts[i].kind == kind && insts[i].name@ != src.name@)) by {
            let last = insts[n - 1];
            if last.kind == kind && last.name@ != src.name@ {
                assert(cur == prev.push((n - 1) as usize));
                if i == n - 1 {
                    assert(cur[prev.len() as int] == (n - 1) as usize);
                } else if cur.contains(i as usize) {
                    let j = choose|j: int| 0 <= j < cur.len() && cur[j] == i as usize;
                    if j < prev.len() {
                        assert(prev[j] == i as usize);
                    }
                } else if prev.contains(i as usize) {
                    let j = choose|j: int| 0 <= j < prev.len() && prev[j] == i as usize;
                    assert(cur[j] == i as usize);
                }
            } else if i == n - 1 {
                if prev.contains(i as usize) {
                    let j = choose|j: int| 0 <= j < prev.len() && prev[j] == i as usize;
                    assert(prev[j] < n - 1);
                }
            }
        }
    }
}

/// An upgrade removes only the upgrading instance's own library link,
/// whatever languages the file carries, unless the primary instance
/// upgrades a multi-audio file: an alternate's upgrade never touches the
/// primary's or another alternate's library.
pub proof fn law_upgrade_by_alternate_unlinks_only_own(
    insts: Seq<InstanceConfig>,
    src: int,
    primary: Seq<char>,
    langs: Seq<String>,
    is_multi_audio: bool,
    kind: InstanceKind,
)
    requires
        0 <= src < insts.len(),
        insts[src].language@ != primary || !is_multi_audio,
    ensures
        spec_upgrade_unlink_targets(insts, src, primary, langs, is_multi_audio, kind) == seq![src as usize],
{
}

/// A multi-audio upgrade by the primary removes the link from exactly the
/// libraries of the event's engine whose language the file carries, and
/// from no other library.
pub proof fn law_primary_multi_upgrade_unlinks_carried_languages(
    insts: Seq<InstanceConfig>,
    src: int,
    primary: Seq<char>,
    langs: Seq<String>,
    kind: InstanceKind,
)
    requires
        0 <= src < insts.len(),
        insts.len() <= usize::MAX,
        insts[src].language@ == primary,
    ensures
        forall|j: int| 0 <= j < spec_upgrade_unlink_targets(insts, src, primary, langs, true, kind).len()
            ==> #[trigger] spec_upgrade_unlink_targets(insts, src, primary, langs, true, kind)[j] < insts.len(),
        forall|i: int| 0 <= i < insts.len() ==> (spec_upgrade_unlink_targets(insts, src, primary, langs, true, kind).contains(i as usize)
            <==> (#[trigger] insts[i].kind == kind && seq_has(langs, insts[i].language@))),
{
    lemma_kind_lang_members(insts, kind, langs, insts.len() as int);
}

/// A delete from an instance that opted in fans out to every other
/// instance of the event's engine (by name), whatever their own flags, and
/// to no instance of the other engine; one that did not opt in fans out to
/// none.
pub proof fn law_delete_fans_out_to_every_sibling(insts: Seq<InstanceConfig>, src: InstanceConfig, kind: InstanceKind)
    requires
        insts.len() <= usize::MAX,
    ensures
        !src.propagate_delete ==> spec_delete_targets(insts, src, kind).len() == 0,
        forall|j: int| 0 <= j < spec_delete_targets(insts, src, kind).len()
            ==> #[trigger] spec_delete_targets(insts, src, kind)[j] < insts.len(),
        src.propagate_delete ==> forall|i: int| 0 <= i < insts.len() ==> (spec_delete_targets(insts, src, kind).contains(i as usize)
            <==> (#[trigger] insts[i].kind == kind && insts[i].name@ != src.name@)),
{
    lemma_sibling_members(insts, src, kind, insts.len() as int);
}

} // verus!
