//! Episode identity (`SxxEyy` markers) and the one-file-per-episode rule.
use vstd::prelude::*;

use crate::config::InstanceConfig;
use crate::text::chars_of;

verus! {

pub open spec fn is_digit(c: char) -> bool {
    '0' <= c && c <= '9'
}

/// End of the run of ASCII digits that starts at `from`.
pub open spec fn digit_run_end(s: Seq<char>, from: int) -> int
    decreases s.len() - from,
{
    if from < 0 || from >= s.len() || !is_digit(s[from]) {
        from
    } else {
        digit_run_end(s, from + 1)
    }
}

/// Decimal value of the digits `s[from..end]`.
pub open spec fn digits_value(s: Seq<char>, from: int, end: int) -> int
    decreases end - from,
{
    if end <= from {
        0
    } else {
        digits_value(s, from, end - 1) * 10 + (s[end - 1] as int - '0' as int)
    }
}

/// The number written at `from` and the index just past it; `None` when no
/// digit stands at `from` or the run does not fit a `u32`.
pub open spec fn number_at(s: Seq<char>, from: int) -> Option<(u32, int)> {
    let end = digit_run_end(s, from);
    if end == from {
        None
    } else if digits_value(s, from, end) > u32::MAX {
        None
    } else {
        Some((digits_value(s, from, end) as u32, end))
    }
}

/// The `S<digits>E<digits>` marker that starts at `i`, case-insensitive.
pub open spec fn marker_at(s: Seq<char>, i: int) -> Option<(u32, u32)> {
    if !(s[i] == 'S' || s[i] == 's') {
        None
    } else {
        match number_at(s, i + 1) {
            None => None,
            Some((season, next)) => if next >= s.len() || !(s[next] == 'E' || s[next] == 'e') {
                None
            } else {
                match number_at(s, next + 1) {
                    None => None,
                    Some((episode, _)) => Some((season, episode)),
                }
            },
        }
    }
}

/// The first marker at or after `from`.
pub open spec fn first_marker(s: Seq<char>, from: int) -> Option<(u32, u32)>
    decreases s.len() - from,
{
    if from < 0 || from >= s.len() {
        None
    } else {
        match marker_at(s, from) {
            Some(m) => Some(m),
            None => first_marker(s, from + 1),
        }
    }
}

proof fn lemma_run_bounds(s: Seq<char>, from: int)
    requires
        0 <= from <= s.len(),
    ensures
        from <= digit_run_end(s, from) <= s.len(),
        forall|k: int| from <= k < digit_run_end(s, from) ==> is_digit(#[trigger] s[k]),
        digit_run_end(s, from) < s.len() ==> !is_digit(s[digit_run_end(s, from)]),
    decreases s.len() - from,
{
    if from < s.len() && is_digit(s[from]) {
        lemma_run_bounds(s, from + 1);
    }
}

proof fn lemma_run_step(s: Seq<char>, from: int, k: int)
    requires
        0 <= from <= k <= s.len(),
        forall|j: int| from <= j < k ==> is_digit(#[trigger] s[j]),
    ensures
        digit_run_end(s, from) == digit_run_end(s, k),
    decreases k - from,
{
    if from < k {
        lemma_run_step(s, from + 1, k);
    }
}

/// Read a run of ASCII digits starting at `from`.
fn take_number(s: &Vec<char>, from: usize) -> (r: Option<(u32, usize)>)
    requires
        from <= s@.len(),
    ensures
        match r {
            Some((v, e)) => number_at(s@, from as int) == Some((v, e as int)),
            None => number_at(s@, from as int) is None,
        },
{
    let mut k: usize = from;
    let mut value: u64 = 0;
    let mut overflow = false;
    while k < s.len() && '0' <= s[k] && s[k] <= '9'
        invariant
            from <= k <= s@.len(),
            forall|j: int| from <= j < k ==> is_digit(#[trigger] s@[j]),
            !overflow ==> value == digits_value(s@, from as int, k as int),
            !overflow ==> value <= u32::MAX,
            overflow ==> digits_value(s@, from as int, k as int) > u32::MAX,
        decreases s@.len() - k,
    {
        let d = (s[k] as u32 - '0' as u32) as u64;
        proof {
            assert(digits_value(s@, from as int, k + 1) == digits_value(s@, from as int, k as int) * 10 + (s@[k as int] as int - '0' as int));
            if overflow {
                assert(digits_value(s@, from as int, k as int) >= 0) by {
                    lemma_digits_nonneg(s@, from as int, k as int);
                }
            }
        }
        if !overflow {
            let next = value * 10 + d;
            if next > 4294967295 {
                overflow = true;
            } else {
                value = next;
            }
        }
        k = k + 1;
    }
    proof {
        lemma_run_bounds(s@, from as int);
        lemma_run_step(s@, from as int, k as int);
        if k < s@.len() {
            assert(!is_digit(s@[k as int]));
        }
        assert(digit_run_end(s@, k as int) == k as int);
    }
    if k == from || overflow {
        None
    } else {
        Some((value as u32, k))
    }
}

proof fn lemma_digits_nonneg(s: Seq<char>, from: int, end: int)
    requires
        0 <= from <= end <= s.len(),
        forall|j: int| from <= j < end ==> is_digit(#[trigger] s[j]),
    ensures
        digits_value(s, from, end) >= 0,
    decreases end - from,
{
    if end > from {
        lemma_digits_nonneg(s, from, end - 1);
    }
}

fn marker_exec(s: &Vec<char>, i: usize) -> (r: Option<(u32, u32)>)
    requires
        i < s@.len(),
    ensures
        r == marker_at(s@, i as int),
{
    let n = s.len();
    if !(s[i] == 'S' || s[i] == 's') {
        return None;
    }
    match take_number(s, i + 1) {
        None => None,
        Some((season, next)) => {
            proof {
                lemma_run_bounds(s@, i + 1);
            }
            if next >= n || !(s[next] == 'E' || s[next] == 'e') {
                None
            } else {
                match take_number(s, next + 1) {
                    None => None,
                    Some((episode, _)) => Some((season, episode)),
                }
            }
        },
    }
}

/// Extract the first `SxxEyy` season/episode marker from a release filename.
pub fn parse_season_episode(name: &str) -> (r: Option<(u32, u32)>)
    ensures
        r == first_marker(name@, 0),
{
    let s = chars_of(name);
    let mut i: usize = 0;
    while i < s.len()
        invariant
            s@ == name@,
            i <= s@.len(),
            first_marker(s@, 0) == first_marker(s@, i as int),
        decreases s@.len() - i,
    {
        let m = marker_exec(&s, i);
        if m.is_some() {
            return m;
        }
        i = i + 1;
    }
    None
}

/// What to do with an incoming episode link when another release already
/// claims the same `SxxEyy` in the target library.
#[derive(Debug, Clone, Copy, PartialEq, Eq, Structural)]
pub enum DedupVerdict {
    /// No conflict: create the link.
    Link,
    /// The incumbent wins: leave the library untouched.
    Skip,
    /// The incoming release wins: evict the incumbent, then link.
    Replace,
}

/// The keep-policy between an incumbent link (owned by `incumbent`) and an
/// incoming release from `source`, for `target`'s library.
pub open spec fn verdict(incumbent: Option<InstanceConfig>, source: InstanceConfig, target: InstanceConfig) -> DedupVerdict {
    match incumbent {
        None => DedupVerdict::Link,
        Some(inc) => if inc.name@ == source.name@ {
            DedupVerdict::Replace
        } else if inc.language@ == target.language@ {
            DedupVerdict::Skip
        } else if source.language@ == target.language@ {
            DedupVerdict::Replace
        } else {
            DedupVerdict::Skip
        },
    }
}

/// Decide which of two releases of the same episode may occupy `target`'s
/// library: an instance always replaces its own link; a release whose
/// source speaks the library's language beats one that does not; otherwise
/// the incumbent stays.
pub fn dedup_verdict(
    incumbent: Option<&InstanceConfig>,
    source: &InstanceConfig,
    target: &InstanceConfig,
) -> (r: DedupVerdict)
    ensures
        r == verdict(
            match incumbent {
                Some(i) => Some(*i),
                None => None,
            },
            *source,
            *target,
        ),
{
    match incumbent {
        None => DedupVerdict::Link,
        Some(inc) => {
            if inc.name == source.name {
                DedupVerdict::Replace
            } else if inc.language == target.language {
                DedupVerdict::Skip
            } else if source.language == target.language {
                DedupVerdict::Replace
            } else {
                DedupVerdict::Skip
            }
        },
    }
}

/// Which release survives in `target`'s library when `first` is linked and
/// `second` arrives afterwards.
pub open spec fn survivor(first: InstanceConfig, second: InstanceConfig, target: InstanceConfig) -> InstanceConfig {
    if verdict(Some(first), second, target) == DedupVerdict::Replace {
        second
    } else {
        first
    }
}

/// An instance always replaces its own link: an upgrade or re-import is
/// never blocked by the release it supersedes.
pub proof fn law_own_link_is_replaced(owner: InstanceConfig, target: InstanceConfig)
    ensures
        verdict(Some(owner), owner, target) == DedupVerdict::Replace,
{
}

/// When exactly one of two releases comes from an instance that speaks the
/// library's language, that release is the one left in the library,
/// whichever of the two was linked first.
pub proof fn law_native_release_wins_in_any_order(a: InstanceConfig, b: InstanceConfig, target: InstanceConfig)
    requires
        a.name@ != b.name@,
        a.language@ == target.language@,
        b.language@ != target.language@,
    ensures
        survivor(a, b, target) == a,
        survivor(b, a, target) == a,
{
}

/// With no release in place, the incoming one is linked.
pub proof fn law_no_conflict_links(source: InstanceConfig, target: InstanceConfig)
    ensures
        verdict(None, source, target) == DedupVerdict::Link,
{
}

} // verus!
