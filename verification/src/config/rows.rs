//! Rows of the configuration tables, and the assembly of a full
//! configuration from what the tables hold.
use vstd::prelude::*;
use super::bootstrap::Bootstrap;
use super::types::{
    definition_keys, kind_from_label, kind_name, kind_named, source_label, strategy_from_label,
    strategy_label, strategy_name, strategy_named, Config, InstanceConfig, InstanceKind,
    JellyfinConfig, LanguageDefinition, LanguagesConfig, LinkStrategy, QueueConfig,
};
use crate::text::{parse_unsigned, parse_unsigned_exec, str_eq, views};

verus! {

/// The list of strings that `serde_json` reads from the JSON text `text`,
/// `None` when the text is not a JSON array of strings.
pub uninterp spec fn json_string_list(text: Seq<char>) -> Option<Seq<Seq<char>>>;

/// A lowercase hexadecimal digit.
pub open spec fn hex_digit(n: int) -> char {
    if n < 10 {
        ('0' as int + n) as char
    } else {
        ('a' as int + n - 10) as char
    }
}

/// How `serde_json` writes one character inside a JSON string: `"` and `\`
/// and the control characters are escaped (`\b`, `\t`, `\n`, `\f`, `\r`,
/// otherwise `\u00XX` with lowercase hex); every other character is
/// written as it is.
pub open spec fn json_escape_char(c: char) -> Seq<char> {
    if c == '"' {
        seq!['\\', '"']
    } else if c == '\\' {
        seq!['\\', '\\']
    } else if c == '\x08' {
        seq!['\\', 'b']
    } else if c == '\t' {
        seq!['\\', 't']
    } else if c == '\n' {
        seq!['\\', 'n']
    } else if c == '\x0c' {
        seq!['\\', 'f']
    } else if c == '\r' {
        seq!['\\', 'r']
    } else if (c as int) < 0x20 {
        seq!['\\', 'u', '0', '0', hex_digit(c as int / 16), hex_digit(c as int % 16)]
    } else {
        seq![c]
    }
}

/// The escaped contents of a JSON string holding `s`.
pub open spec fn json_escaped(s: Seq<char>) -> Seq<char>
    decreases s.len(),
{
    if s.len() == 0 {
        Seq::empty()
    } else {
        json_escaped(s.drop_last()) + json_escape_char(s.last())
    }
}

/// The first `n` strings of `list` as JSON strings, separated by commas.
pub open spec fn json_items(list: Seq<Seq<char>>, n: int) -> Seq<char>
    decreases n,
{
    if n <= 0 {
        Seq::empty()
    } else if n == 1 {
        seq!['"'] + json_escaped(list[0]) + seq!['"']
    } else {
        json_items(list, n - 1) + seq![','] + seq!['"'] + json_escaped(list[n - 1]) + seq!['"']
    }
}

/// The JSON text that `serde_json` writes for a list of strings: the
/// compact array, `[` and `]` around the strings separated by `,`, with no
/// white space. Writing strings into memory cannot fail, so there always is
/// one.
pub open spec fn json_text_of_strings(list: Seq<Seq<char>>) -> Option<Seq<char>> {
    Some(seq!['['] + json_items(list, list.len() as int) + seq![']'])
}

/// `serde_json::from_str::<Vec<String>>`, with the error dropped. The
/// result is a function of the text alone; what it is is not stated here.
#[verifier::external_body]
fn decode_string_list(text: &str) -> (r: Option<Vec<String>>)
    ensures
        match r {
            Some(v) => json_string_list(text@) == Some(views(v@)),
            None => json_string_list(text@) is None,
        },
{
    serde_json::from_str::<Vec<String>>(text).ok()
}

/// `serde_json::to_string` on a list of strings, with the error dropped:
/// the compact JSON array of the strings (see `json_text_of_strings`).
#[verifier::external_body]
fn encode_string_list(list: &Vec<String>) -> (r: Option<String>)
    ensures
        match r {
            Some(t) => json_text_of_strings(views(list@)) == Some(t@),
            None => json_text_of_strings(views(list@)) is None,
        },
{
    serde_json::to_string(list).ok()
}

/// A row of the `languages` table; the ISO code lists are JSON arrays.
#[derive(Debug, Clone)]
pub struct LanguageRow {
    pub key: String,
    pub iso_639_1: String,
    pub iso_639_2: String,
    pub radarr_id: i64,
    pub sonarr_id: i64,
}

/// A row of the `instances` table.
#[derive(Debug, Clone)]
pub struct InstanceRow {
    pub name: String,
    pub kind: String,
    pub language: String,
    pub url: String,
    pub api_key: String,
    pub storage_path: String,
    pub library_path: String,
    pub link_strategy: String,
    pub propagate_delete: bool,
}

/// A stored arr language id read as `u32`; out-of-range ids read as 0.
pub open spec fn id_or_zero(id: i64) -> u32 {
    if 0 <= id <= u32::MAX {
        id as u32
    } else {
        0
    }
}

/// A list read from a row, with unreadable JSON read as the empty list.
pub open spec fn list_or_empty(parsed: Option<Seq<Seq<char>>>) -> Seq<Seq<char>> {
    match parsed {
        Some(l) => l,
        None => Seq::empty(),
    }
}

fn id_from_row(id: i64) -> (r: u32)
    ensures
        r == id_or_zero(id),
{
    if 0 <= id && id <= 4294967295i64 {
        id as u32
    } else {
        0
    }
}

/// The definition a language row stands for, given what its two JSON
/// columns parsed to: unreadable lists read as empty, out-of-range ids as 0.
pub fn definition_from_parts(
    key: String,
    iso_639_1: Option<Vec<String>>,
    iso_639_2: Option<Vec<String>>,
    radarr_id: i64,
    sonarr_id: i64,
) -> (r: (String, LanguageDefinition))
    ensures
        r.0 == key,
        views(r.1.iso_639_1@) == list_or_empty(
            match iso_639_1 {
                Some(v) => Some(views(v@)),
                None => None,
            },
        ),
        views(r.1.iso_639_2@) == list_or_empty(
            match iso_639_2 {
                Some(v) => Some(views(v@)),
                None => None,
            },
        ),
        r.1.radarr_id == id_or_zero(radarr_id),
        r.1.sonarr_id == id_or_zero(sonarr_id),
{
    let iso1 = match iso_639_1 {
        Some(v) => v,
        None => Vec::new(),
    };
    let iso2 = match iso_639_2 {
        Some(v) => v,
        None => Vec::new(),
    };
    proof {
        assert(views(Seq::<String>::empty()) =~= Seq::<Seq<char>>::empty());
    }
    (key, LanguageDefinition {
        iso_639_1: iso1,
        iso_639_2: iso2,
        radarr_id: id_from_row(radarr_id),
        sonarr_id: id_from_row(sonarr_id),
    })
}

impl LanguageRow {
    /// The key and the definition this row stands for.
    pub fn into_definition(self) -> (r: (String, LanguageDefinition))
        ensures
            r.0 == self.key,
            views(r.1.iso_639_1@) == list_or_empty(json_string_list(self.iso_639_1@)),
            views(r.1.iso_639_2@) == list_or_empty(json_string_list(self.iso_639_2@)),
            r.1.radarr_id == id_or_zero(self.radarr_id),
            r.1.sonarr_id == id_or_zero(self.sonarr_id),
    {
        let iso1 = decode_string_list(self.iso_639_1.as_str());
        let iso2 = decode_string_list(self.iso_639_2.as_str());
        definition_from_parts(self.key, iso1, iso2, self.radarr_id, self.sonarr_id)
    }

    /// The row written for definition `def` under `key`; a list that cannot
    /// be written as JSON is stored as empty text.
    pub fn from_definition(key: &str, def: &LanguageDefinition) -> (r: LanguageRow)
        ensures
            r.key@ == key@,
            r.iso_639_1@ == match json_text_of_strings(views(def.iso_639_1@)) {
                Some(t) => t,
                None => Seq::<char>::empty(),
            },
            r.iso_639_2@ == match json_text_of_strings(views(def.iso_639_2@)) {
                Some(t) => t,
                None => Seq::<char>::empty(),
            },
            r.radarr_id == def.radarr_id as i64,
            r.sonarr_id == def.sonarr_id as i64,
    {
        let iso1 = match encode_string_list(&def.iso_639_1) {
            Some(t) => t,
            None => String::new(),
        };
        let iso2 = match encode_string_list(&def.iso_639_2) {
            Some(t) => t,
            None => String::new(),
        };
        LanguageRow {
            key: String::from_str(key),
            iso_639_1: iso1,
            iso_639_2: iso2,
            radarr_id: def.radarr_id as i64,
            sonarr_id: def.sonarr_id as i64,
        }
    }
}

/// Kind of a stored instance; unknown text reads as Radarr.
pub open spec fn stored_kind(s: Seq<char>) -> InstanceKind {
    match kind_named(s) {
        Some(k) => k,
        None => InstanceKind::Radarr,
    }
}

/// Link strategy of a stored instance; unknown text reads as symlink.
pub open spec fn stored_strategy(s: Seq<char>) -> LinkStrategy {
    match strategy_named(s) {
        Some(k) => k,
        None => LinkStrategy::Symlink,
    }
}

impl InstanceRow {
    /// The instance this row stands for.
    pub fn into_config(self) -> (r: InstanceConfig)
        ensures
            r == (InstanceConfig {
                name: self.name,
                kind: stored_kind(self.kind@),
                language: self.language,
                url: self.url,
                api_key: self.api_key,
                storage_path: self.storage_path,
                library_path: self.library_path,
                link_strategy: stored_strategy(self.link_strategy@),
                propagate_delete: self.propagate_delete,
            }),
    {
        let kind = match kind_from_label(self.kind.as_str()) {
            Some(k) => k,
            None => InstanceKind::Radarr,
        };
        let link_strategy = match strategy_from_label(self.link_strategy.as_str()) {
            Some(s) => s,
            None => LinkStrategy::Symlink,
        };
        InstanceConfig {
            name: self.name,
            kind,
            language: self.language,
            url: self.url,
            api_key: self.api_key,
            storage_path: self.storage_path,
            library_path: self.library_path,
            link_strategy,
            propagate_delete: self.propagate_delete,
        }
    }

    /// The row written for an instance.
    pub fn from_config(inst: InstanceConfig) -> (r: InstanceRow)
        ensures
            r.name == inst.name,
            r.kind@ == kind_name(inst.kind),
            r.language == inst.language,
            r.url == inst.url,
            r.api_key == inst.api_key,
            r.storage_path == inst.storage_path,
            r.library_path == inst.library_path,
            r.link_strategy@ == strategy_name(inst.link_strategy),
            r.propagate_delete == inst.propagate_delete,
    {
        InstanceRow {
            name: inst.name,
            kind: String::from_str(source_label(inst.kind)),
            language: inst.language,
            url: inst.url,
            api_key: inst.api_key,
            storage_path: inst.storage_path,
            library_path: inst.library_path,
            link_strategy: String::from_str(strategy_label(inst.link_strategy)),
            propagate_delete: inst.propagate_delete,
        }
    }
}

/// An instance written to a row reads back as the same instance.
pub proof fn law_instance_row_round_trips(inst: InstanceConfig, row: InstanceRow)
    requires
        row.name == inst.name,
        row.kind@ == kind_name(inst.kind),
        row.language == inst.language,
        row.url == inst.url,
        row.api_key == inst.api_key,
        row.storage_path == inst.storage_path,
        row.library_path == inst.library_path,
        row.link_strategy@ == strategy_name(inst.link_strategy),
        row.propagate_delete == inst.propagate_delete,
    ensures
        stored_kind(row.kind@) == inst.kind,
        stored_strategy(row.link_strategy@) == inst.link_strategy,
{
    super::types::law_labels_round_trip(inst.kind, inst.link_strategy);
}

} // verus!

verus! {

/// The definitions collected by key, a later pair replacing an earlier
/// pair with the same key.
pub open spec fn pairs_map(pairs: Seq<(String, LanguageDefinition)>) -> Map<Seq<char>, LanguageDefinition>
    decreases pairs.len(),
{
    if pairs.len() == 0 {
        Map::empty()
    } else {
        pairs_map(pairs.drop_last()).insert(pairs.last().0@, pairs.last().1)
    }
}

/// `defs` holds exactly the entries of `m`, each key once.
pub open spec fn holds_map(defs: Seq<(String, LanguageDefinition)>, m: Map<Seq<char>, LanguageDefinition>) -> bool {
    &&& definition_keys(defs).no_duplicates()
    &&& forall|k: Seq<char>| #[trigger] m.dom().contains(k) <==> definition_keys(defs).contains(k)
    &&& forall|i: int| 0 <= i < defs.len() ==> m[#[trigger] defs[i].0@] == defs[i].1
}

/// The keys of `keys` other than `primary`, in order.
pub open spec fn keys_except(keys: Seq<Seq<char>>, primary: Seq<char>) -> Seq<Seq<char>>
    decreases keys.len(),
{
    if keys.len() == 0 {
        Seq::empty()
    } else if keys.last() == primary {
        keys_except(keys.drop_last(), primary)
    } else {
        keys_except(keys.drop_last(), primary).push(keys.last())
    }
}

/// Worker count stored as text; missing or unreadable text reads as 2.
pub open spec fn stored_workers(value: Option<String>) -> usize {
    match value {
        Some(v) => match parse_unsigned(v@, usize::MAX as int) {
            Some(n) => n as usize,
            None => 2,
        },
        None => 2,
    }
}

/// The definitions of `pairs`, one per key, each with the value of the last
/// pair that has its key, in the order the keys first appear.
pub fn collect_definitions(pairs: Vec<(String, LanguageDefinition)>) -> (r: Vec<(String, LanguageDefinition)>)
    ensures
        holds_map(r@, pairs_map(pairs@)),
{
    let ghost orig = pairs@;
    let mut pairs = pairs;
    let mut out: Vec<(String, LanguageDefinition)> = Vec::new();
    let ghost mut done: int = 0;
    proof {
        assert(orig.take(0) =~= Seq::<(String, LanguageDefinition)>::empty());
        assert(definition_keys(out@) =~= Seq::<Seq<char>>::empty());
    }
    while pairs.len() > 0
        invariant
            0 <= done <= orig.len(),
            pairs@ == orig.skip(done),
            holds_map(out@, pairs_map(orig.take(done))),
        decreases pairs@.len(),
    {
        let (k, d) = pairs.remove(0);
        let ghost m = pairs_map(orig.take(done));
        proof {
            assert(orig[done] == (k, d));
            assert(orig.take(done + 1).drop_last() =~= orig.take(done));
            assert(orig.skip(done + 1) =~= orig.skip(done).remove(0));
        }
        let mut j: usize = 0;
        let mut found = false;
        while j < out.len()
            invariant_except_break
                j <= out@.len(),
                !found,
                forall|i: int| 0 <= i < j ==> out@[i].0@ != k@,
            ensures
                j <= out@.len(),
                found ==> j < out@.len() && out@[j as int].0@ == k@,
                !found ==> forall|i: int| 0 <= i < out@.len() ==> out@[i].0@ != k@,
            decreases out@.len() - j,
        {
            if str_eq(out[j].0.as_str(), k.as_str()) {
                found = true;
                break;
            }
            j = j + 1;
        }
        let ghost old_out = out@;
        let ghost m2 = m.insert(k@, d);
        if found {
            out.set(j, (k, d));
            proof {
                let keys0 = definition_keys(old_out);
                let keys1 = definition_keys(out@);
                assert(keys1 =~= keys0.update(j as int, k@));
                assert(keys1 =~= keys0);
                assert forall|kk: Seq<char>| #[trigger] m2.dom().contains(kk) <==> keys1.contains(kk) by {
                    if kk == k@ {
                        assert(keys1[j as int] == kk);
                    } else if m.dom().contains(kk) {
                        assert(keys0.contains(kk));
                    }
                }
                assert forall|i: int| 0 <= i < out@.len() implies m2[#[trigger] out@[i].0@] == out@[i].1 by {
                    if i != j as int {
                        assert(out@[i] == old_out[i]);
                        assert(keys0[i] != keys0[j as int]);
                    }
                }
            }
        } else {
            out.push((k, d));
            proof {
                let keys0 = definition_keys(old_out);
                let keys1 = definition_keys(out@);
                assert(keys1 =~= keys0.push(k@));
                assert(!keys0.contains(k@)) by {
                    if keys0.contains(k@) {
                        let w = choose|w: int| 0 <= w < keys0.len() && keys0[w] == k@;
                        assert(old_out[w].0@ == k@);
                    }
                }
                assert(keys1.no_duplicates()) by {
                    assert forall|a: int, b: int| 0 <= a < b < keys1.len() implies keys1[a] != keys1[b] by {
                        if b == keys0.len() {
                            assert(keys1[a] == keys0[a]);
                        } else {
                            assert(keys1[a] == keys0[a] && keys1[b] == keys0[b]);
                        }
                    }
                }
                assert forall|kk: Seq<char>| #[trigger] m2.dom().contains(kk) <==> keys1.contains(kk) by {
                    if kk == k@ {
                        assert(keys1[keys0.len() as int] == kk);
                    } else if m.dom().contains(kk) {
                        assert(keys0.contains(kk));
                        let w = choose|w: int| 0 <= w < keys0.len() && keys0[w] == kk;
                        assert(keys1[w] == kk);
                    } else if keys1.contains(kk) {
                        let w = choose|w: int| 0 <= w < keys1.len() && keys1[w] == kk;
                        assert(w < keys0.len());
                        assert(keys0[w] == kk);
                    }
                }
                assert forall|i: int| 0 <= i < out@.len() implies m2[#[trigger] out@[i].0@] == out@[i].1 by {
                    if i < old_out.len() {
                        assert(out@[i] == old_out[i]);
                        assert(keys0[i] != k@);
                    }
                }
            }
        }
        proof {
            done = done + 1;
            assert(pairs_map(orig.take(done)) == m2);
        }
    }
    proof {
        assert(orig.take(done) =~= orig);
    }
    out
}

/// With `defs` holding `m`, the definition stored under a key is `m`'s entry.
pub proof fn lemma_definition_of_holds(langs: LanguagesConfig, m: Map<Seq<char>, LanguageDefinition>, k: Seq<char>)
    requires
        holds_map(langs.definitions@, m),
    ensures
        langs.definition_of(k) == (if m.dom().contains(k) { Some(m[k]) } else { None }),
{
    let defs = langs.definitions@;
    let keys = definition_keys(defs);
    if m.dom().contains(k) {
        assert(keys.contains(k));
        let w = choose|w: int| 0 <= w < keys.len() && keys[w] == k;
        assert(defs[w].0@ == k);
        let i = choose|i: int| 0 <= i < defs.len() && defs[i].0@ == k;
        assert(m[defs[i].0@] == defs[i].1);
    } else {
        assert forall|i: int| 0 <= i < defs.len() implies defs[i].0@ != k by {
            assert(keys[i] == defs[i].0@);
        }
    }
}

fn alternates_of(defs: &Vec<(String, LanguageDefinition)>, primary: &str) -> (r: Vec<String>)
    ensures
        views(r@) == keys_except(definition_keys(defs@), primary@),
{
    let mut out: Vec<String> = Vec::new();
    let mut i: usize = 0;
    proof {
        assert(definition_keys(defs@.take(0)) =~= Seq::<Seq<char>>::empty());
        assert(views(out@) =~= Seq::<Seq<char>>::empty());
    }
    while i < defs.len()
        invariant
            i <= defs@.len(),
            views(out@) == keys_except(definition_keys(defs@.take(i as int)), primary@),
        decreases defs@.len() - i,
    {
        let ghost before = out@;
        proof {
            let ks = definition_keys(defs@.take(i + 1));
            assert(ks.drop_last() =~= definition_keys(defs@.take(i as int)));
            assert(ks.last() == defs@[i as int].0@);
        }
        if !str_eq(defs[i].0.as_str(), primary) {
            out.push(defs[i].0.clone());
            proof {
                assert(views(out@) =~= views(before).push(defs@[i as int].0@));
            }
        }
        i = i + 1;
    }
    proof {
        assert(defs@.take(defs@.len() as int) =~= defs@);
    }
    out
}

fn workers_from_text(value: Option<String>) -> (r: usize)
    ensures
        r == stored_workers(value),
{
    match value {
        Some(v) => match parse_unsigned_exec(v.as_str(), usize::MAX as u64) {
            Some(n) => n as usize,
            None => 2,
        },
        None => 2,
    }
}

/// The full configuration from what the tables hold and the bootstrap
/// settings. There is none until setup is complete, at least one language
/// is defined and the primary language is set to a defined key.
pub fn assemble_config(
    setup_complete: bool,
    lang_pairs: Vec<(String, LanguageDefinition)>,
    primary: Option<String>,
    concurrency: Option<String>,
    instances: Vec<InstanceConfig>,
    jellyfin: Option<JellyfinConfig>,
    boot: Bootstrap,
) -> (r: Option<Config>)
    ensures
        r is Some <==> setup_complete && lang_pairs@.len() > 0 && primary is Some && primary->0@.len() > 0
            && pairs_map(lang_pairs@).dom().contains(primary->0@),
        r matches Some(c) ==> {
            &&& c.port == boot.port
            &&& c.log_level == boot.log_level
            &&& c.media_base_path == boot.media_base_path
            &&& c.database_path == boot.database_path
            &&& c.api_key == boot.api_key
            &&& c.queue.concurrency == stored_workers(concurrency)
            &&& c.languages.primary@ == primary->0@
            &&& c.languages.well_formed()
            &&& holds_map(c.languages.definitions@, pairs_map(lang_pairs@))
            &&& forall|k: Seq<char>| #[trigger] c.languages.definition_of(k) == (if pairs_map(lang_pairs@).dom().contains(k) {
                Some(pairs_map(lang_pairs@)[k])
            } else {
                None
            })
            &&& views(c.languages.alternates@) == keys_except(definition_keys(c.languages.definitions@), primary->0@)
            &&& c.instances == instances
            &&& c.jellyfin == jellyfin
        },
{
    if !setup_complete {
        return None;
    }
    if lang_pairs.len() == 0 {
        return None;
    }
    let ghost pairs = lang_pairs@;
    proof {
        assert(pairs_map(pairs).dom().contains(pairs.last().0@));
    }
    let definitions = collect_definitions(lang_pairs);
    let primary = match primary {
        Some(p) => p,
        None => return None,
    };
    if primary.as_str().is_empty() {
        return None;
    }
    let mut known = false;
    let mut i: usize = 0;
    while i < definitions.len()
        invariant
            i <= definitions@.len(),
            !known ==> forall|j: int| 0 <= j < i ==> definitions@[j].0@ != primary@,
            known ==> definition_keys(definitions@).contains(primary@),
        decreases definitions@.len() - i,
    {
        if str_eq(definitions[i].0.as_str(), primary.as_str()) {
            proof {
                assert(definition_keys(definitions@)[i as int] == primary@);
            }
            known = true;
        }
        i = i + 1;
    }
    proof {
        let keys = definition_keys(definitions@);
        if !known && keys.contains(primary@) {
            let w = choose|w: int| 0 <= w < keys.len() && keys[w] == primary@;
            assert(definitions@[w].0@ == primary@);
        }
    }
    if !known {
        return None;
    }
    let alternates = alternates_of(&definitions, primary.as_str());
    let concurrency = workers_from_text(concurrency);
    let languages = LanguagesConfig { primary, alternates, definitions };
    proof {
        assert forall|k: Seq<char>| #[trigger] languages.definition_of(k) == (if pairs_map(pairs).dom().contains(k) {
            Some(pairs_map(pairs)[k])
        } else {
            None
        }) by {
            lemma_definition_of_holds(languages, pairs_map(pairs), k);
        }
    }
    Some(Config {
        port: boot.port,
        log_level: boot.log_level,
        media_base_path: boot.media_base_path,
        database_path: boot.database_path,
        api_key: boot.api_key,
        queue: QueueConfig { concurrency },
        languages,
        instances,
        jellyfin,
    })
}

} // verus!

verus! {

/// A key is collected exactly when some pair carries it.
pub proof fn lemma_pairs_map_keys(pairs: Seq<(String, LanguageDefinition)>, k: Seq<char>)
    ensures
        pairs_map(pairs).dom().contains(k) <==> definition_keys(pairs).contains(k),
    decreases pairs.len(),
{
    if pairs.len() > 0 {
        let init = pairs.drop_last();
        lemma_pairs_map_keys(init, k);
        let keys = definition_keys(pairs);
        let keys0 = definition_keys(init);
        assert(keys0 =~= keys.drop_last());
        if definition_keys(pairs).contains(k) {
            let w = choose|w: int| 0 <= w < keys.len() && keys[w] == k;
            if w < keys.len() - 1 {
                assert(keys0[w] == k);
            }
        }
        if keys0.contains(k) {
            let w = choose|w: int| 0 <= w < keys0.len() && keys0[w] == k;
            assert(keys[w] == k);
        }
        assert(keys[keys.len() - 1] == pairs.last().0@);
    }
}

} // verus!
