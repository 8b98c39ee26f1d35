//! Shaping query results: how identifiers are looked up, how rows become
//! records, which encounter rows are shown and how, and how listings are
//! ranked and counted.
use vstd::prelude::*;
use crate::db::models::{
    EncounterDetails, Encounter, EvolutionMethod, EvolutionNode, PokemonStats, TypeEffectiveness,
    details_empty,
};
use crate::text::{
    cat, cat3, contains, has_infix, lowercase, owned, parse_i64, parse_i64_spec, replace_char,
    replace_char_spec, str_eq, to_lowercase, trim_end_char, trim_end_char_spec,
};

verus! {

// ---------------------------------------------------------------------
// Identifiers
// ---------------------------------------------------------------------

/// How a Pokémon identifier is matched against names: lower-cased, with
/// spaces turned into hyphens.
pub open spec fn name_key(identifier: Seq<char>) -> Seq<char> {
    replace_char_spec(lowercase(identifier), ' ', '-')
}

/// The normalized name of a Pokémon identifier.
pub fn normalize_identifier(identifier: &str) -> (r: String)
    ensures
        r@ == name_key(identifier@),
{
    let l = to_lowercase(identifier);
    replace_char(l.as_str(), ' ', '-')
}

/// How a Pokémon identifier is looked up: first as a national dex number
/// when it reads as one, then by normalized name.
pub fn pokemon_lookup_keys(identifier: &str) -> (r: (Option<i64>, String))
    ensures
        r.0 == parse_i64_spec(identifier@),
        r.1@ == name_key(identifier@),
{
    (parse_i64(identifier), normalize_identifier(identifier))
}

/// A form name resolves to its Pokémon id only when that Pokémon is not
/// the default one of its species.
pub fn form_pokemon_id(pokemon_id: i64, is_default: i64) -> (r: Option<i64>)
    ensures
        r == (if is_default == 1 { None } else { Some(pokemon_id) }),
{
    if is_default == 1 {
        None
    } else {
        Some(pokemon_id)
    }
}

// ---------------------------------------------------------------------
// Types
// ---------------------------------------------------------------------

/// The names with a given damage factor, in row order.
pub open spec fn with_factor(rows: Seq<(String, i64)>, factor: i64) -> Seq<Seq<char>>
    decreases rows.len(),
{
    if rows.len() == 0 {
        seq![]
    } else {
        let rest = with_factor(rows.drop_last(), factor);
        if rows.last().1 == factor {
            rest.push(rows.last().0@)
        } else {
            rest
        }
    }
}

/// The string views of a list of strings.
pub open spec fn views(v: Seq<String>) -> Seq<Seq<char>> {
    v.map_values(|s: String| s@)
}

/// Groups matchup rows `(type name, damage factor)` by factor: 200 is
/// super effective, 50 not very effective, 0 no effect; other factors are
/// left out.
pub fn classify_matchups(rows: &[(String, i64)]) -> (r: TypeEffectiveness)
    ensures
        views(r.super_effective@) == with_factor(rows@, 200),
        views(r.not_very_effective@) == with_factor(rows@, 50),
        views(r.no_effect@) == with_factor(rows@, 0),
{
    let mut sup: Vec<String> = Vec::new();
    let mut half: Vec<String> = Vec::new();
    let mut none: Vec<String> = Vec::new();
    let mut i: usize = 0;
    while i < rows.len()
        invariant
            i <= rows@.len(),
            views(sup@) == with_factor(rows@.subrange(0, i as int), 200),
            views(half@) == with_factor(rows@.subrange(0, i as int), 50),
            views(none@) == with_factor(rows@.subrange(0, i as int), 0),
        decreases rows.len() - i,
    {
        let ghost pre = rows@.subrange(0, i + 1);
        assert(pre.drop_last() =~= rows@.subrange(0, i as int));
        let f = rows[i].1;
        if f == 200 {
            sup.push(rows[i].0.clone());
            assert(views(sup@) =~= with_factor(pre, 200));
        } else if f == 50 {
            half.push(rows[i].0.clone());
            assert(views(half@) =~= with_factor(pre, 50));
        } else if f == 0 {
            none.push(rows[i].0.clone());
            assert(views(none@) =~= with_factor(pre, 0));
        }
        i = i + 1;
    }
    assert(rows@.subrange(0, rows@.len() as int) =~= rows@);
    TypeEffectiveness { super_effective: sup, not_very_effective: half, no_effect: none }
}

// ---------------------------------------------------------------------
// Stats
// ---------------------------------------------------------------------

/// The value of the first stat row with the given name, zero when absent.
pub open spec fn stat_value(rows: Seq<(String, i64)>, name: Seq<char>) -> i64
    decreases rows.len(),
{
    if rows.len() == 0 {
        0
    } else if rows[0].0@ == name {
        rows[0].1
    } else {
        stat_value(rows.drop_first(), name)
    }
}

/// The sum of the six base stats.
pub open spec fn stat_total(rows: Seq<(String, i64)>) -> int {
    stat_value(rows, "hp"@) + stat_value(rows, "attack"@) + stat_value(rows, "defense"@)
        + stat_value(rows, "special-attack"@) + stat_value(rows, "special-defense"@)
        + stat_value(rows, "speed"@)
}

fn find_stat(rows: &[(String, i64)], name: &str) -> (r: i64)
    ensures
        r == stat_value(rows@, name@),
{
    let mut i: usize = 0;
    assert(rows@.subrange(0, rows@.len() as int) =~= rows@);
    while i < rows.len()
        invariant
            i <= rows@.len(),
            stat_value(rows@, name@) == stat_value(rows@.subrange(i as int, rows@.len() as int), name@),
        decreases rows.len() - i,
    {
        let ghost rest = rows@.subrange(i as int, rows@.len() as int);
        assert(rest[0] == rows@[i as int]);
        assert(rest.drop_first() =~= rows@.subrange(i + 1, rows@.len() as int));
        if str_eq(rows[i].0.as_str(), name) {
            return rows[i].1;
        }
        i = i + 1;
    }
    0
}

/// Base stats from `(stat name, base value)` rows: each stat is the first
/// row with its name (zero when missing) and the total is their sum.
pub fn stats_from_rows(pokemon_name: String, rows: &[(String, i64)]) -> (r: PokemonStats)
    requires
        i64::MIN <= stat_total(rows@) <= i64::MAX,
        i64::MIN <= stat_value(rows@, "hp"@) + stat_value(rows@, "attack"@) <= i64::MAX,
        i64::MIN <= stat_value(rows@, "hp"@) + stat_value(rows@, "attack"@) + stat_value(rows@, "defense"@) <= i64::MAX,
        i64::MIN <= stat_value(rows@, "hp"@) + stat_value(rows@, "attack"@) + stat_value(rows@, "defense"@)
            + stat_value(rows@, "special-attack"@) <= i64::MAX,
        i64::MIN <= stat_value(rows@, "hp"@) + stat_value(rows@, "attack"@) + stat_value(rows@, "defense"@)
            + stat_value(rows@, "special-attack"@) + stat_value(rows@, "special-defense"@) <= i64::MAX,
    ensures
        r.pokemon_name == pokemon_name,
        r.hp == stat_value(rows@, "hp"@),
        r.attack == stat_value(rows@, "attack"@),
        r.defense == stat_value(rows@, "defense"@),
        r.special_attack == stat_value(rows@, "special-attack"@),
        r.special_defense == stat_value(rows@, "special-defense"@),
        r.speed == stat_value(rows@, "speed"@),
        r.total == stat_total(rows@),
{
    let hp = find_stat(rows, "hp");
    let attack = find_stat(rows, "attack");
    let defense = find_stat(rows, "defense");
    let special_attack = find_stat(rows, "special-attack");
    let special_defense = find_stat(rows, "special-defense");
    let speed = find_stat(rows, "speed");
    let total = hp + attack + defense + special_attack + special_defense + speed;
    PokemonStats { pokemon_name, hp, attack, defense, special_attack, special_defense, speed, total }
}

// ---------------------------------------------------------------------
// Forms
// ---------------------------------------------------------------------

/// The types of a form: its own when it has any, else those of its Pokémon.
pub fn form_types(own: Vec<String>, of_pokemon: Vec<String>) -> (r: Vec<String>)
    ensures
        r == (if own@.len() > 0 { own } else { of_pokemon }),
{
    if own.len() > 0 {
        own
    } else {
        of_pokemon
    }
}

// ---------------------------------------------------------------------
// Evolution
// ---------------------------------------------------------------------

/// An evolution method from a database row; an empty detail is absent.
pub fn evolution_method(trigger: String, detail: String, location: Option<String>, item: Option<String>) -> (r: EvolutionMethod)
    ensures
        r.trigger == trigger,
        detail@.len() == 0 ==> r.trigger_detail is None,
        detail@.len() > 0 ==> r.trigger_detail == Some(detail),
        r.location == location,
        r.item == item,
        r.form_requirement is None,
{
    let d = if detail.as_str().unicode_len() == 0 { None } else { Some(detail) };
    EvolutionMethod { trigger, trigger_detail: d, location, item, form_requirement: None }
}

/// The key by which evolution methods are told apart.
pub open spec fn method_key(m: EvolutionMethod) -> (Seq<char>, Option<Seq<char>>) {
    (m.trigger@, match m.trigger_detail { Some(d) => Some(d@), None => None })
}

/// The methods kept from a list: the first of each `(trigger, detail)`.
pub open spec fn dedup_methods_spec(ms: Seq<EvolutionMethod>) -> Seq<EvolutionMethod>
    decreases ms.len(),
{
    if ms.len() == 0 {
        seq![]
    } else {
        let rest = dedup_methods_spec(ms.drop_last());
        if exists|j: int| 0 <= j < ms.len() - 1 && method_key(#[trigger] ms[j]) == method_key(ms.last()) {
            rest
        } else {
            rest.push(ms.last())
        }
    }
}

fn same_key(a: &EvolutionMethod, b: &EvolutionMethod) -> (r: bool)
    ensures
        r == (method_key(*a) == method_key(*b)),
{
    if !str_eq(a.trigger.as_str(), b.trigger.as_str()) {
        return false;
    }
    match (&a.trigger_detail, &b.trigger_detail) {
        (Some(x), Some(y)) => str_eq(x.as_str(), y.as_str()),
        (None, None) => true,
        _ => false,
    }
}

/// Keeps the first method of each `(trigger, trigger_detail)` pair, in order.
pub fn dedup_methods(ms: Vec<EvolutionMethod>) -> (r: Vec<EvolutionMethod>)
    ensures
        r@ == dedup_methods_spec(ms@),
{
    let mut out: Vec<EvolutionMethod> = Vec::new();
    let mut i: usize = 0;
    while i < ms.len()
        invariant
            i <= ms@.len(),
            out@ == dedup_methods_spec(ms@.subrange(0, i as int)),
        decreases ms.len() - i,
    {
        let ghost pre = ms@.subrange(0, i + 1);
        assert(pre.drop_last() =~= ms@.subrange(0, i as int));
        let mut seen = false;
        let mut j: usize = 0;
        while j < i
            invariant
                j <= i < ms@.len(),
                seen == exists|x: int| 0 <= x < j && method_key(#[trigger] ms@[x]) == method_key(ms@[i as int]),
            decreases i - j,
        {
            if same_key(&ms[j], &ms[i]) {
                seen = true;
            }
            j = j + 1;
        }
        proof {
            assert forall|x: int| 0 <= x < pre.len() - 1 implies #[trigger] pre[x] == ms@[x] by {}
            if seen {
                let x = choose|x: int| 0 <= x < i && method_key(#[trigger] ms@[x]) == method_key(ms@[i as int]);
                assert(method_key(pre[x]) == method_key(pre.last()));
            } else {
                assert forall|x: int| 0 <= x < pre.len() - 1 implies method_key(#[trigger] pre[x]) != method_key(pre.last()) by {
                    assert(pre[x] == ms@[x]);
                }
            }
        }
        if !seen {
            out.push(ms[i].clone_method());
        }
        i = i + 1;
    }
    assert(ms@.subrange(0, ms@.len() as int) =~= ms@);
    out
}

impl EvolutionMethod {
    /// A field-for-field copy.
    pub fn clone_method(&self) -> (r: Self)
        ensures
            r == *self,
    {
        EvolutionMethod {
            trigger: self.trigger.clone(),
            trigger_detail: clone_opt(&self.trigger_detail),
            location: clone_opt(&self.location),
            item: clone_opt(&self.item),
            form_requirement: clone_opt(&self.form_requirement),
        }
    }
}

/// A copy of an optional string.
pub fn clone_opt(s: &Option<String>) -> (r: Option<String>)
    ensures
        r == *s,
{
    match s {
        Some(v) => Some(v.clone()),
        None => None,
    }
}

/// The species names of an evolution tree in pre-order: the node, then
/// each child's subtree in order.
pub open spec fn preorder(n: EvolutionNode) -> Seq<Seq<char>>
    decreases n,
{
    seq![n.species_name@] + preorder_list(n.children@)
}

/// The pre-order names of a list of subtrees, concatenated.
pub open spec fn preorder_list(ns: Seq<EvolutionNode>) -> Seq<Seq<char>>
    decreases ns,
{
    if ns.len() == 0 {
        seq![]
    } else {
        preorder_list(ns.drop_last()) + preorder(ns.last())
    }
}

/// Appends the pre-order names of a tree.
pub fn collect_species_from_chain(node: &EvolutionNode, names: &mut Vec<String>)
    ensures
        views(final(names)@) == views(old(names)@) + preorder(*node),
    decreases node,
{
    let ghost start = views(names@);
    names.push(node.species_name.clone());
    assert(views(names@) =~= start + seq![node.species_name@]);
    let mut i: usize = 0;
    while i < node.children.len()
        invariant
            i <= node.children@.len(),
            views(names@) == start + seq![node.species_name@] + preorder_list(node.children@.subrange(0, i as int)),
        decreases node.children.len() - i,
    {
        let ghost pre = node.children@.subrange(0, i + 1);
        assert(pre.drop_last() =~= node.children@.subrange(0, i as int));
        assert(pre.last() == node.children@[i as int]);
        collect_species_from_chain(&node.children[i], names);
        proof {
            assert(views(names@) =~= start + seq![node.species_name@] + preorder_list(pre));
        }
        i = i + 1;
    }
    assert(node.children@.subrange(0, node.children@.len() as int) =~= node.children@);
}

// ---------------------------------------------------------------------
// Percentages
// ---------------------------------------------------------------------

/// `caught / total` as a percentage rounded half away from zero to two
/// decimals, in hundredths; zero when the total is not positive.
pub open spec fn percentage_hundredths_spec(caught: int, total: int) -> int {
    if total <= 0 {
        0
    } else if caught >= 0 {
        (caught * 20000 + total) / (2 * total)
    } else {
        -((-caught * 20000 + total) / (2 * total))
    }
}

/// Completion percentage in hundredths of a percent.
pub fn percentage_hundredths(caught: i64, total: i64) -> (r: i64)
    requires
        -922337203685477 <= caught <= 922337203685477,
    ensures
        r == percentage_hundredths_spec(caught as int, total as int),
{
    if total <= 0 {
        return 0;
    }
    let c: i128 = caught as i128;
    let t: i128 = total as i128;
    if c >= 0 {
        let q: i128 = (c * 20000 + t) / (2 * t);
        proof {
            assert(0 <= q <= c * 10000 + 1) by (nonlinear_arith)
                requires
                    q == (c * 20000 + t) / (2 * t),
                    t >= 1,
                    c >= 0,
            ;
        }
        q as i64
    } else {
        let q: i128 = (-c * 20000 + t) / (2 * t);
        proof {
            assert(0 <= q <= -c * 10000 + 1) by (nonlinear_arith)
                requires
                    q == (-c * 20000 + t) / (2 * t),
                    t >= 1,
                    c < 0,
            ;
        }
        (-q) as i64
    }
}


// ---------------------------------------------------------------------
// Encounters
// ---------------------------------------------------------------------

/// An encounter row as read from the database, before it is shaped.
#[derive(Debug, Clone)]
pub struct EncounterRow {
    pub location: String,
    pub area: String,
    pub game: String,
    pub game_slug: String,
    pub method: String,
    pub min_level: i64,
    pub max_level: i64,
    pub rarity: Option<i64>,
}

/// The details say the Pokémon cannot be caught there.
pub open spec fn uncatchable(details: Option<EncounterDetails>) -> bool {
    match details {
        Some(d) => match d.note {
            Some(n) => has_infix(n@, "Can not be caught"@),
            None => false,
        },
        None => false,
    }
}

/// Methods whose level 1–1 data is a placeholder rather than a level.
pub open spec fn placeholder_level_method(m: Seq<char>) -> bool {
    m == "Static Encounter"@ || m == "Fixed Encounter"@ || m == "Max Raid Battle"@
        || m == "Special Encounter"@ || m == "static-encounter"@ || m == "fixed-encounter"@
        || m == "max-raid-battle"@ || m == "special-encounter"@
}

/// The levels are a placeholder: 1–1 for a static, fixed, raid or special
/// encounter, or for one noted as uncatchable.
pub open spec fn placeholder_levels(row: EncounterRow, details: Option<EncounterDetails>) -> bool {
    row.min_level == 1 && row.max_level == 1 && (placeholder_level_method(row.method@) || uncatchable(details))
}

/// A wild method: neither a trade nor a gift.
pub open spec fn wild_method(m: Seq<char>) -> bool {
    !has_infix(lowercase(m), "trade"@) && !has_infix(lowercase(m), "gift"@)
}

/// The shown name: the regional form label before the species name for a
/// wild encounter in a game with that regional form.
pub open spec fn encounter_name_spec(display: Seq<char>, method: Seq<char>, label: Option<Seq<char>>) -> Seq<char> {
    match label {
        Some(l) => if wild_method(method) { l + " "@ + display } else { display },
        None => display,
    }
}

/// The shown rarity: the overall rate of the details (without trailing
/// `%`) when it is a number, else the slot rarity.
pub open spec fn encounter_rarity_spec(rarity: Option<i64>, details: Option<EncounterDetails>) -> Option<i64> {
    match details {
        Some(d) => match d.rate_overall {
            Some(r) => match parse_i64_spec(trim_end_char_spec(r@, '%')) {
                Some(n) => Some(n),
                None => rarity,
            },
            None => rarity,
        },
        None => rarity,
    }
}

fn is_placeholder_method(m: &str) -> (b: bool)
    ensures
        b == placeholder_level_method(m@),
{
    str_eq(m, "Static Encounter") || str_eq(m, "Fixed Encounter") || str_eq(m, "Max Raid Battle")
        || str_eq(m, "Special Encounter") || str_eq(m, "static-encounter") || str_eq(m, "fixed-encounter")
        || str_eq(m, "max-raid-battle") || str_eq(m, "special-encounter")
}

fn is_uncatchable(details: &Option<EncounterDetails>) -> (b: bool)
    ensures
        b == uncatchable(*details),
{
    match details {
        Some(d) => match &d.note {
            Some(n) => contains(n.as_str(), "Can not be caught"),
            None => false,
        },
        None => false,
    }
}

/// Shapes an encounter row: rows noted as uncatchable are dropped;
/// placeholder levels are cleared; wild encounters of a regional form are
/// named after it; a numeric overall rate replaces the slot rarity.
pub fn finish_encounter(
    row: EncounterRow,
    display_name: &str,
    species_slug: &str,
    conditions: Vec<String>,
    details: Option<EncounterDetails>,
    regional_label: Option<&str>,
) -> (r: Option<Encounter>)
    ensures
        r is None <==> uncatchable(details),
        r matches Some(e) ==> {
            &&& e.pokemon_name@ == encounter_name_spec(display_name@, row.method@,
                match regional_label { Some(l) => Some(l@), None => None })
            &&& e.species_slug@ == species_slug@
            &&& e.location == row.location
            &&& e.area == row.area
            &&& e.game == row.game
            &&& e.game_slug == row.game_slug
            &&& e.method == row.method
            &&& (if placeholder_levels(row, details) {
                e.min_level is None && e.max_level is None
            } else {
                e.min_level == Some(row.min_level) && e.max_level == Some(row.max_level)
            })
            &&& e.rarity == encounter_rarity_spec(row.rarity, details)
            &&& e.conditions == conditions
            &&& e.details == details
        },
{
    if is_uncatchable(&details) {
        return None;
    }
    let placeholder = row.min_level == 1 && row.max_level == 1 && is_placeholder_method(row.method.as_str());
    let (min_level, max_level) = if placeholder { (None, None) } else { (Some(row.min_level), Some(row.max_level)) };
    let name = match regional_label {
        Some(label) => {
            let m = to_lowercase(row.method.as_str());
            if !contains(m.as_str(), "trade") && !contains(m.as_str(), "gift") {
                cat3(label, " ", display_name)
            } else {
                owned(display_name)
            }
        },
        None => owned(display_name),
    };
    let rarity = match &details {
        Some(d) => match &d.rate_overall {
            Some(rate) => {
                let t = trim_end_char(rate.as_str(), '%');
                match parse_i64(t.as_str()) {
                    Some(n) => Some(n),
                    None => row.rarity,
                }
            },
            None => row.rarity,
        },
        None => row.rarity,
    };
    Some(Encounter {
        pokemon_name: name,
        species_slug: owned(species_slug),
        location: row.location,
        area: row.area,
        game: row.game,
        game_slug: row.game_slug,
        method: row.method,
        min_level,
        max_level,
        rarity,
        conditions,
        details,
    })
}

/// Detail rows that carry nothing are not shown.
pub fn shown_details(d: EncounterDetails) -> (r: Option<EncounterDetails>)
    ensures
        details_empty(d) ==> r is None,
        !details_empty(d) ==> r == Some(d),
{
    if d.is_empty() {
        None
    } else {
        Some(d)
    }
}

// ---------------------------------------------------------------------
// Regional forms in encounter listings
// ---------------------------------------------------------------------

/// An entry of the regional-encounter table: a species, the label of its
/// regional form, and the games where wild encounters are of that form.
#[derive(Debug, Clone)]
pub struct RegionalEntry {
    pub species: Option<String>,
    pub form: Option<String>,
    pub games: Option<Vec<String>>,
}

/// The `(species, game, label)` triples of one entry, keys lower-cased;
/// none unless species, form and games are all given.
pub open spec fn entry_triples(e: RegionalEntry) -> Seq<(Seq<char>, Seq<char>, Seq<char>)> {
    match (e.species, e.form, e.games) {
        (Some(s), Some(f), Some(gs)) => gs@.map_values(|g: String| (lowercase(s@), lowercase(g@), f@)),
        _ => seq![],
    }
}

/// All triples of a table, in order.
pub open spec fn table_triples(es: Seq<RegionalEntry>) -> Seq<(Seq<char>, Seq<char>, Seq<char>)>
    decreases es.len(),
{
    if es.len() == 0 {
        seq![]
    } else {
        table_triples(es.drop_last()) + entry_triples(es.last())
    }
}

/// The label for a species in a game: the last triple recorded for them.
pub open spec fn label_of(ts: Seq<(Seq<char>, Seq<char>, Seq<char>)>, s: Seq<char>, g: Seq<char>) -> Option<Seq<char>>
    decreases ts.len(),
{
    if ts.len() == 0 {
        None
    } else if ts.last().0 == s && ts.last().1 == g {
        Some(ts.last().2)
    } else {
        label_of(ts.drop_last(), s, g)
    }
}

/// The regional-form labels by species and game.
pub struct RegionalForms {
    pub triples: Vec<(String, String, String)>,
}

/// The views of the recorded triples.
pub open spec fn triple_views(ts: Seq<(String, String, String)>) -> Seq<(Seq<char>, Seq<char>, Seq<char>)> {
    ts.map_values(|t: (String, String, String)| (t.0@, t.1@, t.2@))
}

impl RegionalForms {
    /// Builds the table from its entries.
    pub fn build(entries: &[RegionalEntry]) -> (r: Self)
        ensures
            triple_views(r.triples@) == table_triples(entries@),
    {
        let mut triples: Vec<(String, String, String)> = Vec::new();
        let mut i: usize = 0;
        while i < entries.len()
            invariant
                i <= entries@.len(),
                triple_views(triples@) == table_triples(entries@.subrange(0, i as int)),
            decreases entries.len() - i,
        {
            let ghost pre = entries@.subrange(0, i + 1);
            assert(pre.drop_last() =~= entries@.subrange(0, i as int));
            let e = &entries[i];
            let ghost before = triple_views(triples@);
            match (&e.species, &e.form, &e.games) {
                (Some(s), Some(f), Some(gs)) => {
                    let ls = to_lowercase(s.as_str());
                    let mut k: usize = 0;
                    while k < gs.len()
                        invariant
                            k <= gs@.len(),
                            ls@ == lowercase(s@),
                            triple_views(triples@) == before
                                + gs@.subrange(0, k as int).map_values(|g: String| (lowercase(s@), lowercase(g@), f@)),
                        decreases gs.len() - k,
                    {
                        let lg = to_lowercase(gs[k].as_str());
                        let ghost prev = triples@;
                        triples.push((ls.clone(), lg, f.clone()));
                        proof {
                            assert(triple_views(triples@) =~= triple_views(prev).push((lowercase(s@), lowercase(gs@[k as int]@), f@)));
                            let m = gs@.subrange(0, k + 1).map_values(|g: String| (lowercase(s@), lowercase(g@), f@));
                            let m0 = gs@.subrange(0, k as int).map_values(|g: String| (lowercase(s@), lowercase(g@), f@));
                            assert(m =~= m0.push((lowercase(s@), lowercase(gs@[k as int]@), f@)));
                            assert(triple_views(triples@) =~= before + m);
                        }
                        k = k + 1;
                    }
                    assert(gs@.subrange(0, gs@.len() as int) =~= gs@);
                    assert(triple_views(triples@) =~= table_triples(pre));
                },
                _ => {
                    assert(entry_triples(*e) =~= Seq::<(Seq<char>, Seq<char>, Seq<char>)>::empty());
                    assert(table_triples(pre) =~= before);
                },
            }
            i = i + 1;
        }
        assert(entries@.subrange(0, entries@.len() as int) =~= entries@);
        RegionalForms { triples }
    }

    /// The regional-form label for a species slug in a game slug (both
    /// compared lower-cased).
    pub fn label(&self, species: &str, game: &str) -> (r: Option<String>)
        ensures
            match r {
                Some(l) => label_of(triple_views(self.triples@), lowercase(species@), lowercase(game@)) == Some(l@),
                None => label_of(triple_views(self.triples@), lowercase(species@), lowercase(game@)) is None,
            },
    {
        let ls = to_lowercase(species);
        let lg = to_lowercase(game);
        let ghost tv = triple_views(self.triples@);
        let mut i: usize = self.triples.len();
        assert(tv.subrange(0, i as int) =~= tv);
        while i > 0
            invariant
                i <= self.triples@.len(),
                tv == triple_views(self.triples@),
                ls@ == lowercase(species@),
                lg@ == lowercase(game@),
                label_of(tv, ls@, lg@) == label_of(tv.subrange(0, i as int), ls@, lg@),
            decreases i,
        {
            let ghost pre = tv.subrange(0, i as int);
            assert(pre.drop_last() =~= tv.subrange(0, i - 1));
            let t = &self.triples[i - 1];
            assert(pre.last() == (t.0@, t.1@, t.2@));
            if str_eq(t.0.as_str(), ls.as_str()) && str_eq(t.1.as_str(), lg.as_str()) {
                return Some(t.2.clone());
            }
            i = i - 1;
        }
        None
    }
}

} // verus!
