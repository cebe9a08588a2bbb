//! Validated, resolved configuration types shared across the crate.
use vstd::prelude::*;

verus! {

/// Instance engine — Radarr or Sonarr.
#[derive(Debug, Clone, Copy, PartialEq, Eq, Hash, Structural)]
pub enum InstanceKind {
    Radarr,
    Sonarr,
}

/// Linking strategy between the arr storage tree and the media library tree.
#[derive(Debug, Clone, Copy, PartialEq, Eq, Structural)]
pub enum LinkStrategy {
    Symlink,
    Hardlink,
}

/// One configured Radarr/Sonarr instance. Paths are held as strings.
#[derive(Debug, Clone)]
pub struct InstanceConfig {
    pub name: String,
    pub kind: InstanceKind,
    pub language: String,
    pub url: String,
    pub api_key: String,
    pub storage_path: String,
    pub library_path: String,
    pub link_strategy: LinkStrategy,
    /// When `true`, deletes on this instance fan out to other instances.
    pub propagate_delete: bool,
}

/// ISO codes and arr ids of one configured language.
#[derive(Debug, Clone)]
pub struct LanguageDefinition {
    pub iso_639_1: Vec<String>,
    pub iso_639_2: Vec<String>,
    pub radarr_id: u32,
    pub sonarr_id: u32,
}

/// Language setup: the primary key, the other keys, and every definition
/// keyed by its language key (keys are distinct, see `well_formed`).
#[derive(Debug, Clone)]
pub struct LanguagesConfig {
    pub primary: String,
    pub alternates: Vec<String>,
    pub definitions: Vec<(String, LanguageDefinition)>,
}

#[derive(Debug, Clone)]
pub struct QueueConfig {
    pub concurrency: usize,
}

#[derive(Debug, Clone)]
pub struct JellyfinConfig {
    pub url: String,
    pub api_key: String,
}

/// Fully validated, secret-resolved configuration.
#[derive(Debug, Clone)]
pub struct Config {
    pub port: u16,
    pub log_level: String,
    pub media_base_path: String,
    pub database_path: String,
    pub api_key: String,
    pub queue: QueueConfig,
    pub languages: LanguagesConfig,
    pub instances: Vec<InstanceConfig>,
    pub jellyfin: Option<JellyfinConfig>,
}

/// The language keys of a definition list.
pub open spec fn definition_keys(defs: Seq<(String, LanguageDefinition)>) -> Seq<Seq<char>> {
    defs.map_values(|p: (String, LanguageDefinition)| p.0@)
}

impl LanguagesConfig {
    /// Every definition key occurs once.
    pub open spec fn well_formed(&self) -> bool {
        definition_keys(self.definitions@).no_duplicates()
    }

    /// The definition stored under `key`, if any.
    pub open spec fn definition_of(&self, key: Seq<char>) -> Option<LanguageDefinition> {
        if exists|i: int| 0 <= i < self.definitions@.len() && self.definitions@[i].0@ == key {
            let i = choose|i: int| 0 <= i < self.definitions@.len() && self.definitions@[i].0@ == key;
            Some(self.definitions@[i].1)
        } else {
            None
        }
    }

    /// Index of the definition stored under `key`.
    pub fn find_definition(&self, key: &str) -> (r: Option<usize>)
        requires
            self.well_formed(),
        ensures
            match r {
                Some(i) => i < self.definitions@.len() && self.definitions@[i as int].0@ == key@
                    && self.definition_of(key@) == Some(self.definitions@[i as int].1),
                None => self.definition_of(key@) is None,
            },
    {
        let mut i: usize = 0;
        while i < self.definitions.len()
            invariant
                self.well_formed(),
                i <= self.definitions@.len(),
                forall|j: int| 0 <= j < i ==> self.definitions@[j].0@ != key@,
            decreases self.definitions@.len() - i,
        {
            if crate::text::str_eq(self.definitions[i].0.as_str(), key) {
                proof {
                    assert(self.definitions@[i as int].0@ == key@);
                    let w = choose|j: int| 0 <= j < self.definitions@.len() && self.definitions@[j].0@ == key@;
                    let keys = definition_keys(self.definitions@);
                    assert(keys[w] == self.definitions@[w].0@);
                    assert(keys[i as int] == self.definitions@[i as int].0@);
                    assert(keys.len() == self.definitions@.len());
                    assert(w == i as int);
                }
                return Some(i);
            }
            i = i + 1;
        }
        None
    }
}

/// Text form of an instance kind, as stored and as shown by the API.
pub open spec fn kind_name(k: InstanceKind) -> Seq<char> {
    match k {
        InstanceKind::Radarr => "radarr"@,
        InstanceKind::Sonarr => "sonarr"@,
    }
}

/// The kind whose text form is `s`.
pub open spec fn kind_named(s: Seq<char>) -> Option<InstanceKind> {
    if s == "radarr"@ {
        Some(InstanceKind::Radarr)
    } else if s == "sonarr"@ {
        Some(InstanceKind::Sonarr)
    } else {
        None
    }
}

/// Text form of a link strategy, as stored and as shown by the API.
pub open spec fn strategy_name(s: LinkStrategy) -> Seq<char> {
    match s {
        LinkStrategy::Symlink => "symlink"@,
        LinkStrategy::Hardlink => "hardlink"@,
    }
}

/// The strategy whose text form is `s`.
pub open spec fn strategy_named(s: Seq<char>) -> Option<LinkStrategy> {
    if s == "symlink"@ {
        Some(LinkStrategy::Symlink)
    } else if s == "hardlink"@ {
        Some(LinkStrategy::Hardlink)
    } else {
        None
    }
}

/// Text form of an instance kind.
pub fn source_label(kind: InstanceKind) -> (r: &'static str)
    ensures
        r@ == kind_name(kind),
{
    match kind {
        InstanceKind::Radarr => "radarr",
        InstanceKind::Sonarr => "sonarr",
    }
}

/// Text form of a link strategy.
pub fn strategy_label(strategy: LinkStrategy) -> (r: &'static str)
    ensures
        r@ == strategy_name(strategy),
{
    match strategy {
        LinkStrategy::Symlink => "symlink",
        LinkStrategy::Hardlink => "hardlink",
    }
}

/// The instance kind named by `s`, if any.
pub fn kind_from_label(s: &str) -> (r: Option<InstanceKind>)
    ensures
        r == kind_named(s@),
{
    if crate::text::str_eq(s, "radarr") {
        Some(InstanceKind::Radarr)
    } else if crate::text::str_eq(s, "sonarr") {
        Some(InstanceKind::Sonarr)
    } else {
        None
    }
}

/// The link strategy named by `s`, if any.
pub fn strategy_from_label(s: &str) -> (r: Option<LinkStrategy>)
    ensures
        r == strategy_named(s@),
{
    if crate::text::str_eq(s, "symlink") {
        Some(LinkStrategy::Symlink)
    } else if crate::text::str_eq(s, "hardlink") {
        Some(LinkStrategy::Hardlink)
    } else {
        None
    }
}

/// Reading back the text form of a kind or a strategy gives the same value:
/// what is stored for an instance is what is loaded for it.
pub proof fn law_labels_round_trip(kind: InstanceKind, strategy: LinkStrategy)
    ensures
        kind_named(kind_name(kind)) == Some(kind),
        strategy_named(strategy_name(strategy)) == Some(strategy),
{
    reveal_strlit("radarr");
    reveal_strlit("sonarr");
    reveal_strlit("symlink");
    reveal_strlit("hardlink");
    assert("radarr"@[0] != "sonarr"@[0]);
    assert("symlink"@[0] != "hardlink"@[0]);
}

} // verus!

verus! {

impl LanguagesConfig {
    /// Whether every definition key occurs once.
    pub fn is_well_formed(&self) -> (r: bool)
        ensures
            r == self.well_formed(),
    {
        let n = self.definitions.len();
        let ghost keys = definition_keys(self.definitions@);
        let mut i: usize = 0;
        while i < n
            invariant
                n == self.definitions@.len(),
                keys == definition_keys(self.definitions@),
                i <= n,
                forall|a: int, b: int| 0 <= a < b < n && a < i ==> keys[a] != keys[b],
            decreases n - i,
        {
            let mut j: usize = i + 1;
            while j < n
                invariant
                    n == self.definitions@.len(),
                    keys == definition_keys(self.definitions@),
                    i < n,
                    i + 1 <= j <= n,
                    forall|a: int, b: int| 0 <= a < b < n && a < i ==> keys[a] != keys[b],
                    forall|b: int| i < b < j ==> keys[i as int] != keys[b],
                decreases n - j,
            {
                if crate::text::str_eq(self.definitions[i].0.as_str(), self.definitions[j].0.as_str()) {
                    proof {
                        assert(keys[i as int] == keys[j as int]);
                    }
                    return false;
                }
                j = j + 1;
            }
            i = i + 1;
        }
        true
    }
}

} // verus!
