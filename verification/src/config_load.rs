//! Tolerant loading of the configuration files: a value that cannot be read
//! is dropped one field (or one keybinding) at a time with a warning, so that
//! the rest of the file still applies. Only a syntax error fails a file.
//!
//! Whether one entry can be read into its options type is decided by the
//! deserializer, outside this module; the library takes those answers and
//! decides which entries stay and what the user is told.
use vstd::prelude::*;
use crate::text::str_eq;
use crate::toml_doc::TomlValue;

verus! {

/// The value under `key` in a TOML table (the first entry with that key).
pub open spec fn toml_get(t: Seq<(String, TomlValue)>, key: Seq<char>) -> Option<TomlValue>
    decreases t.len(),
{
    if t.len() == 0 {
        None
    } else if t[0].0@ == key {
        Some(t[0].1)
    } else {
        toml_get(t.drop_first(), key)
    }
}

/// Finds the value under `key` in a table.
pub fn table_get<'a>(table: &'a Vec<(String, TomlValue)>, key: &str) -> (r: Option<&'a TomlValue>)
    ensures
        match r {
            Some(v) => toml_get(table@, key@) == Some(*v),
            None => toml_get(table@, key@) is None,
        },
{
    let n = table.len();
    let mut i: usize = 0;
    proof {
        assert(table@.skip(0) =~= table@);
    }
    while i < n
        invariant
            n == table@.len(),
            i <= n,
            toml_get(table@, key@) == toml_get(table@.skip(i as int), key@),
        decreases n - i,
    {
        proof {
            assert(table@.skip(i as int).drop_first() =~= table@.skip(i + 1));
        }
        if str_eq(table[i].0.as_str(), key) {
            return Some(&table[i].1);
        }
        i = i + 1;
    }
    proof {
        assert(table@.skip(n as int).len() == 0);
    }
    None
}

/// What a tolerant loader finds under a section's name.
pub enum SectionLookup<'a> {
    /// No such section: its options keep their defaults, silently.
    Missing,
    /// The name holds something other than a table: defaults, and this warning.
    NotTable { warning: String },
    /// The section's entries, each still to be read on its own.
    Entries(&'a Vec<(String, TomlValue)>),
}

pub open spec fn not_table_warning(name: Seq<char>) -> Seq<char> {
    "["@ + name + "] must be a table, using defaults"@
}

/// Looks up the section `[name]` of a document's root table.
pub fn lookup_section<'a>(root: &'a Vec<(String, TomlValue)>, name: &str) -> (r: SectionLookup<'a>)
    ensures
        match toml_get(root@, name@) {
            None => r is Missing,
            Some(TomlValue::Table(t)) => r matches SectionLookup::Entries(e) && e@ == t@,
            Some(_) => r matches SectionLookup::NotTable { warning } && warning@ == not_table_warning(
                name@,
            ),
        },
{
    match table_get(root, name) {
        None => SectionLookup::Missing,
        Some(TomlValue::Table(t)) => SectionLookup::Entries(t),
        Some(_) => {
            let mut w = "[".to_owned();
            w.append(name);
            w.append("] must be a table, using defaults");
            proof {
                reveal_strlit("[");
                reveal_strlit("] must be a table, using defaults");
            }
            SectionLookup::NotTable { warning: w }
        },
    }
}

/// The warning for an entry of `[section]` that the deserializer refused.
pub open spec fn invalid_field_warning(section: Seq<char>, key: Seq<char>, error: Seq<char>) -> Seq<char> {
    "["@ + section + "] "@ + key + " is invalid and was ignored: "@ + error
}

/// The positions, among the first `n` entries, of those read without error.
pub open spec fn accepted_upto(errors: Seq<Option<String>>, n: nat) -> Seq<usize>
    decreases n,
{
    if n == 0 {
        seq![]
    } else {
        let p = accepted_upto(errors, (n - 1) as nat);
        if errors[n - 1] is None {
            p.push((n - 1) as usize)
        } else {
            p
        }
    }
}

/// The warnings for the refused entries among the first `n`, in order.
pub open spec fn refused_upto(
    section: Seq<char>,
    entries: Seq<(String, TomlValue)>,
    errors: Seq<Option<String>>,
    n: nat,
) -> Seq<Seq<char>>
    decreases n,
{
    if n == 0 {
        seq![]
    } else {
        let p = refused_upto(section, entries, errors, (n - 1) as nat);
        match errors[n - 1] {
            Some(e) => p.push(invalid_field_warning(section, entries[n - 1].0@, e@)),
            None => p,
        }
    }
}

pub open spec fn string_views(v: Seq<String>) -> Seq<Seq<char>> {
    v.map_values(|s: String| s@)
}

/// What stays of a section, and what the user is told about the rest.
pub struct FilteredSection {
    /// Positions of the entries that stay, in document order.
    pub kept: Vec<usize>,
    pub warnings: Vec<String>,
}

/// Keeps the entries of `[section]` that the deserializer read without
/// error (`errors[i]` is its answer for `entries[i]`) and warns once for
/// each other one, naming it and the deserializer's message.
pub fn filter_section(section: &str, entries: &Vec<(String, TomlValue)>, errors: &Vec<Option<String>>) -> (r:
    FilteredSection)
    requires
        entries.len() == errors.len(),
    ensures
        r.kept@ == accepted_upto(errors@, errors@.len()),
        string_views(r.warnings@) == refused_upto(section@, entries@, errors@, errors@.len()),
{
    let n = errors.len();
    let mut kept: Vec<usize> = Vec::new();
    let mut warnings: Vec<String> = Vec::new();
    let mut i: usize = 0;
    while i < n
        invariant
            n == errors@.len(),
            n == entries@.len(),
            i <= n,
            kept@ == accepted_upto(errors@, i as nat),
            string_views(warnings@) == refused_upto(section@, entries@, errors@, i as nat),
        decreases n - i,
    {
        match &errors[i] {
            None => {
                kept.push(i);
            },
            Some(e) => {
                let mut w = "[".to_owned();
                w.append(section);
                w.append("] ");
                w.append(entries[i].0.as_str());
                w.append(" is invalid and was ignored: ");
                w.append(e.as_str());
                proof {
                    reveal_strlit("[");
                    reveal_strlit("] ");
                    reveal_strlit(" is invalid and was ignored: ");
                }
                let ghost before = warnings@;
                warnings.push(w);
                proof {
                    assert(string_views(warnings@) =~= string_views(before).push(w@));
                }
            },
        }
        i = i + 1;
    }
    FilteredSection { kept, warnings }
}

/// Tolerant loading loses nothing silently: of the first `n` entries of a
/// section, each one the deserializer read stays (in order, once), and each
/// other one gets exactly one warning.
pub proof fn lemma_every_entry_kept_or_warned(
    section: Seq<char>,
    entries: Seq<(String, TomlValue)>,
    errors: Seq<Option<String>>,
    n: nat,
)
    requires
        n <= errors.len() <= usize::MAX,
        entries.len() == errors.len(),
    ensures
        accepted_upto(errors, n).len() + refused_upto(section, entries, errors, n).len() == n,
        forall|k: int|
            0 <= k < accepted_upto(errors, n).len() ==> {
                let j = #[trigger] accepted_upto(errors, n)[k];
                j < n && errors[j as int] is None
            },
        forall|k1: int, k2: int|
            0 <= k1 < k2 < accepted_upto(errors, n).len() ==> accepted_upto(errors, n)[k1]
                < accepted_upto(errors, n)[k2],
        forall|j: int| 0 <= j < n && errors[j] is None ==> accepted_upto(errors, n).contains(j as usize),
    decreases n,
{
    if n > 0 {
        lemma_every_entry_kept_or_warned(section, entries, errors, (n - 1) as nat);
        let p = accepted_upto(errors, (n - 1) as nat);
        assert forall|j: int| 0 <= j < n && errors[j] is None implies accepted_upto(
            errors,
            n,
        ).contains(j as usize) by {
            if j < n - 1 {
                let k = choose|k: int| 0 <= k < p.len() && p[k] == j as usize;
                if errors[n - 1] is None {
                    assert(accepted_upto(errors, n)[k] == j as usize);
                }
            } else {
                assert(accepted_upto(errors, n)[p.len() as int] == j as usize);
            }
        }
    }
}

pub open spec fn not_applied_warning(section: Seq<char>, error: Seq<char>) -> Seq<char> {
    "["@ + section + "] could not be applied, using defaults: "@ + error
}

/// The warning when the entries that stayed still could not be read
/// together: the section then keeps its defaults.
pub fn not_applied(section: &str, error: &str) -> (r: String)
    ensures
        r@ == not_applied_warning(section@, error@),
{
    let mut w = "[".to_owned();
    w.append(section);
    w.append("] could not be applied, using defaults: ");
    w.append(error);
    proof {
        reveal_strlit("[");
        reveal_strlit("] could not be applied, using defaults: ");
    }
    w
}

/// The `[keymap]` keys that hold a table of named bindings; any other key
/// is a binding of its own.
pub open spec fn is_keymap_action_map(key: Seq<char>) -> bool {
    ||| key == "groups"@
    ||| key == "guild_actions"@
    ||| key == "channel_actions"@
    ||| key == "message_actions"@
    ||| key == "member_actions"@
    ||| key == "thread_actions"@
    ||| key == "composer"@
}

/// Whether `key` of `[keymap]` names a table of bindings.
pub fn keymap_action_map(key: &str) -> (r: bool)
    ensures
        r == is_keymap_action_map(key@),
{
    str_eq(key, "groups") || str_eq(key, "guild_actions") || str_eq(key, "channel_actions") || str_eq(
        key,
        "message_actions",
    ) || str_eq(key, "member_actions") || str_eq(key, "thread_actions") || str_eq(key, "composer")
}

/// The deserializer's answers for one entry of `[keymap]`: one for a
/// binding, one per named binding for an action map.
pub enum KeymapProbe {
    Binding(bool),
    Bindings(Vec<bool>),
}

/// The answers have the shape of the entry they are for.
pub open spec fn probe_fits(entry: (String, TomlValue), probe: KeymapProbe) -> bool {
    if is_keymap_action_map(entry.0@) {
        match entry.1 {
            TomlValue::Table(b) => probe matches KeymapProbe::Bindings(ok) && ok@.len() == b@.len(),
            _ => true,
        }
    } else {
        probe is Binding
    }
}

/// One entry of `[keymap]` that stays.
pub enum KeymapEntry {
    /// The entry at this position, whole.
    Binding(usize),
    /// The action map at `entry`, with only its bindings at these positions.
    ActionMap { entry: usize, bindings: Vec<usize> },
}

pub open spec fn keymap_entry_view(e: KeymapEntry) -> (usize, Option<Seq<usize>>) {
    match e {
        KeymapEntry::Binding(i) => (i, None),
        KeymapEntry::ActionMap { entry, bindings } => (entry, Some(bindings@)),
    }
}

pub open spec fn keymap_entries_view(v: Seq<KeymapEntry>) -> Seq<(usize, Option<Seq<usize>>)> {
    v.map_values(|e: KeymapEntry| keymap_entry_view(e))
}

/// Positions, among the first `n` bindings, of those that were read.
pub open spec fn bindings_kept_upto(ok: Seq<bool>, n: nat) -> Seq<usize>
    decreases n,
{
    if n == 0 {
        seq![]
    } else {
        let p = bindings_kept_upto(ok, (n - 1) as nat);
        if ok[n - 1] {
            p.push((n - 1) as usize)
        } else {
            p
        }
    }
}

/// Warnings for the refused bindings among the first `n` of `[keymap.<map>]`.
pub open spec fn bindings_refused_upto(
    map: Seq<char>,
    bindings: Seq<(String, TomlValue)>,
    ok: Seq<bool>,
    n: nat,
) -> Seq<Seq<char>>
    decreases n,
{
    if n == 0 {
        seq![]
    } else {
        let p = bindings_refused_upto(map, bindings, ok, (n - 1) as nat);
        if ok[n - 1] {
            p
        } else {
            p.push("[keymap."@ + map + "] "@ + bindings[n - 1].0@ + " is invalid and was ignored"@)
        }
    }
}

/// What the entries of `[keymap]` before position `i` leave: the entries
/// that stay and the warnings, in order.
pub open spec fn keymap_step(
    st: (Seq<(usize, Option<Seq<usize>>)>, Seq<Seq<char>>),
    i: int,
    entry: (String, TomlValue),
    probe: KeymapProbe,
) -> (Seq<(usize, Option<Seq<usize>>)>, Seq<Seq<char>>) {
    let key = entry.0@;
    if is_keymap_action_map(key) {
        match entry.1 {
            TomlValue::Table(b) => match probe {
                KeymapProbe::Bindings(ok) => (
                    st.0.push((i as usize, Some(bindings_kept_upto(ok@, ok@.len())))),
                    st.1 + bindings_refused_upto(key, b@, ok@, ok@.len()),
                ),
                KeymapProbe::Binding(_) => st,
            },
            _ => (st.0, st.1.push("[keymap."@ + key + "] must be a table, using defaults"@)),
        }
    } else {
        match probe {
            KeymapProbe::Binding(true) => (st.0.push((i as usize, None)), st.1),
            _ => (st.0, st.1.push("[keymap] "@ + key + " is invalid and was ignored"@)),
        }
    }
}

pub open spec fn keymap_fold(
    table: Seq<(String, TomlValue)>,
    probes: Seq<KeymapProbe>,
    n: nat,
) -> (Seq<(usize, Option<Seq<usize>>)>, Seq<Seq<char>>)
    decreases n,
{
    if n == 0 {
        (seq![], seq![])
    } else {
        keymap_step(keymap_fold(table, probes, (n - 1) as nat), n - 1, table[n - 1], probes[n - 1])
    }
}

/// The bindings of `[keymap.<map>]` that were read, and a warning for each
/// other one.
fn filter_bindings(map: &str, bindings: &Vec<(String, TomlValue)>, ok: &Vec<bool>) -> (r: (
    Vec<usize>,
    Vec<String>,
))
    requires
        bindings.len() == ok.len(),
    ensures
        r.0@ == bindings_kept_upto(ok@, ok@.len()),
        string_views(r.1@) == bindings_refused_upto(map@, bindings@, ok@, ok@.len()),
{
    let n = ok.len();
    let mut kept: Vec<usize> = Vec::new();
    let mut warnings: Vec<String> = Vec::new();
    let mut i: usize = 0;
    while i < n
        invariant
            n == ok@.len(),
            n == bindings@.len(),
            i <= n,
            kept@ == bindings_kept_upto(ok@, i as nat),
            string_views(warnings@) == bindings_refused_upto(map@, bindings@, ok@, i as nat),
        decreases n - i,
    {
        if ok[i] {
            kept.push(i);
        } else {
            let mut w = "[keymap.".to_owned();
            w.append(map);
            w.append("] ");
            w.append(bindings[i].0.as_str());
            w.append(" is invalid and was ignored");
            proof {
                reveal_strlit("[keymap.");
                reveal_strlit("] ");
                reveal_strlit(" is invalid and was ignored");
            }
            let ghost before = warnings@;
            warnings.push(w);
            proof {
                assert(string_views(warnings@) =~= string_views(before).push(w@));
            }
        }
        i = i + 1;
    }
    (kept, warnings)
}

/// What stays of `[keymap]`, and what the user is told about the rest.
pub struct FilteredKeymap {
    pub entries: Vec<KeymapEntry>,
    pub warnings: Vec<String>,
}

/// Keeps, one binding at a time, what the deserializer read in `[keymap]`
/// (`probes[i]` holds its answers for `table[i]`): a binding that was read
/// stays, an action map stays with the bindings that were read, an action
/// map that is not a table is dropped, and each dropped thing gets one
/// warning.
pub fn filter_keymap(table: &Vec<(String, TomlValue)>, probes: &Vec<KeymapProbe>) -> (r: FilteredKeymap)
    requires
        table.len() == probes.len(),
        forall|i: int| 0 <= i < table.len() ==> #[trigger] probe_fits(table@[i], probes@[i]),
    ensures
        (keymap_entries_view(r.entries@), string_views(r.warnings@)) == keymap_fold(
            table@,
            probes@,
            table@.len(),
        ),
{
    let n = table.len();
    let mut entries: Vec<KeymapEntry> = Vec::new();
    let mut warnings: Vec<String> = Vec::new();
    let mut i: usize = 0;
    while i < n
        invariant
            n == table@.len(),
            n == probes@.len(),
            i <= n,
            forall|j: int| 0 <= j < table.len() ==> #[trigger] probe_fits(table@[j], probes@[j]),
            (keymap_entries_view(entries@), string_views(warnings@)) == keymap_fold(table@, probes@, i as nat),
        decreases n - i,
    {
        let ghost st = keymap_fold(table@, probes@, i as nat);
        let ghost before_e = entries@;
        let ghost before_w = warnings@;
        assert(probe_fits(table@[i as int], probes@[i as int]));
        let key = table[i].0.as_str();
        if keymap_action_map(key) {
            match &table[i].1 {
                TomlValue::Table(b) => {
                    match &probes[i] {
                        KeymapProbe::Bindings(ok) => {
                            let (kept, mut ws) = filter_bindings(key, b, ok);
                            let ghost kept_v = kept@;
                            let ghost ws_v = string_views(ws@);
                            entries.push(KeymapEntry::ActionMap { entry: i, bindings: kept });
                            warnings.append(&mut ws);
                            proof {
                                assert(keymap_entries_view(entries@) =~= keymap_entries_view(before_e).push(
                                    (i, Some(kept_v)),
                                ));
                                assert(string_views(warnings@) =~= string_views(before_w) + ws_v);
                            }
                        },
                        KeymapProbe::Binding(_) => {},
                    }
                },
                _ => {
                    let mut w = "[keymap.".to_owned();
                    w.append(key);
                    w.append("] must be a table, using defaults");
                    proof {
                        reveal_strlit("[keymap.");
                        reveal_strlit("] must be a table, using defaults");
                    }
                    warnings.push(w);
                    proof {
                        assert(string_views(warnings@) =~= string_views(before_w).push(w@));
                    }
                },
            }
        } else {
            match &probes[i] {
                KeymapProbe::Binding(true) => {
                    entries.push(KeymapEntry::Binding(i));
                    proof {
                        assert(keymap_entries_view(entries@) =~= keymap_entries_view(before_e).push((i, None)));
                    }
                },
                _ => {
                    let mut w = "[keymap] ".to_owned();
                    w.append(key);
                    w.append(" is invalid and was ignored");
                    proof {
                        reveal_strlit("[keymap] ");
                        reveal_strlit(" is invalid and was ignored");
                    }
                    warnings.push(w);
                    proof {
                        assert(string_views(warnings@) =~= string_views(before_w).push(w@));
                    }
                },
            }
        }
        i = i + 1;
    }
    FilteredKeymap { entries, warnings }
}

} // verus!
