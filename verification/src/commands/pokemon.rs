//! Decisions of the `pokemon` commands: filter checks, the data a form
//! name selects, and the follow-up actions of each listing.
use vstd::prelude::*;
use crate::commands::{opt_flag, oview, osview, page_actions, push_opt_flag, push_page_actions};
use crate::db::models::{AbilityInfo, PokemonStats, Species};
use crate::output::{act, views_of, Action, ActionView, ErrorResponse};
use crate::text::{
    cat, cat3, decimal, eq_ignore_ascii_case, eq_ignore_ascii_case_spec, join_spec, join_strings, lowercase, owned,
    str_eq, to_lowercase, trim, trim_spec, u64_to_decimal,
};

verus! {

// ---------------------------------------------------------------------
// Unknown species
// ---------------------------------------------------------------------

/// The suggestions when a name resolves to no species: `<prefix><name>`
/// for each close species name (best first), or a search and the species
/// list where there are none.
pub open spec fn unknown_species_actions(prefix: Seq<char>, pokemon: Seq<char>, close: Seq<Seq<char>>) -> Seq<ActionView> {
    if close.len() == 0 {
        seq![
            act("search"@, "pokedex pokemon search "@ + pokemon),
            act("list"@, "pokedex pokemon list --limit=20"@),
        ]
    } else {
        close.map_values(|n: Seq<char>| act("did_you_mean"@, prefix + n))
    }
}

/// The error of a `pokemon` command for a name that resolves to no species;
/// `command` is the subcommand (`show`, `stats`, ...).
pub fn unknown_species(command: &str, pokemon: &str, close: &Vec<&str>) -> (e: ErrorResponse)
    ensures
        e.error.code@ == "NOT_FOUND"@,
        e.error.message@ == "No pokémon named '"@ + pokemon@ + "'"@,
        views_of(e.actions@) == unknown_species_actions(
            "pokedex pokemon "@ + command@ + " "@,
            pokemon@,
            close@.map_values(|p: &str| p@),
        ),
{
    let msg = cat3("No pokémon named '", pokemon, "'");
    if close.len() == 0 {
        let c = cat("pokedex pokemon search ", pokemon);
        let v = vec![Action::new("search", c.as_str()), Action::new("list", "pokedex pokemon list --limit=20")];
        assert(views_of(v@) =~= seq![v@[0]@, v@[1]@]);
        ErrorResponse::not_found(msg.as_str(), v)
    } else {
        let prefix = cat3("pokedex pokemon ", command, " ");
        let s = crate::commands::suggest_each(prefix.as_str(), close);
        ErrorResponse::not_found(msg.as_str(), s)
    }
}

// ---------------------------------------------------------------------
// list
// ---------------------------------------------------------------------

/// Whether a type filter names a known type, by slug or display name,
/// ignoring ASCII case.
pub open spec fn type_known(types: Seq<(Seq<char>, Seq<char>)>, t: Seq<char>) -> bool {
    exists|i: int| 0 <= i < types.len() && #[trigger] type_matches(types[i], t)
}

/// Whether a type, by slug and display name, is the one named.
pub open spec fn type_matches(ty: (Seq<char>, Seq<char>), t: Seq<char>) -> bool {
    eq_ignore_ascii_case_spec(ty.0, t) || eq_ignore_ascii_case_spec(ty.1, t)
}

/// The type list, by slug and display name.
pub open spec fn type_views(types: Seq<crate::db::models::TypeInfo>) -> Seq<(Seq<char>, Seq<char>)> {
    types.map_values(|t: crate::db::models::TypeInfo| (t.name@, t.display_name@))
}

/// Checks a type filter against the known types: the error for an
/// unknown one.
pub fn check_type_filter(types: &Vec<crate::db::models::TypeInfo>, t: &str) -> (r: Option<ErrorResponse>)
    ensures
        r is None <==> type_known(type_views(types@), t@),
        r matches Some(e) ==> e.error.code@ == "INVALID_PARAMETER"@ && e.error.message@ == "No type named '"@ + t@ + "'"@
            && views_of(e.actions@) == seq![act("types"@, "pokedex type list"@)],
{
    let ghost tv = type_views(types@);
    let mut i: usize = 0;
    while i < types.len()
        invariant
            i <= types@.len(),
            tv == type_views(types@),
            forall|j: int| 0 <= j < i ==> !#[trigger] type_matches(tv[j], t@),
        decreases types.len() - i,
    {
        if eq_ignore_ascii_case(types[i].name.as_str(), t) || eq_ignore_ascii_case(types[i].display_name.as_str(), t) {
            assert(tv[i as int] == (types@[i as int].name@, types@[i as int].display_name@));
            assert(type_matches(tv[i as int], t@));
            assert(tv.len() == types@.len());
            assert(type_known(tv, t@));
            return None;
        }
        i = i + 1;
    }
    let msg = cat3("No type named '", t, "'");
    let v = vec![Action::new("types", "pokedex type list")];
    assert(views_of(v@) =~= seq![act("types"@, "pokedex type list"@)]);
    Some(ErrorResponse::invalid_parameter(msg.as_str(), v))
}

/// The error for a generation outside one to nine.
pub fn check_generation(g: u32) -> (r: Option<ErrorResponse>)
    ensures
        r is None <==> 1 <= g <= 9,
        r matches Some(e) ==> e.error.code@ == "INVALID_PARAMETER"@ && e.error.message@ == "Invalid generation '"@
            + decimal(g as nat) + "'. Valid values: 1-9"@ && views_of(e.actions@) == seq![
            act("list"@, "pokedex pokemon list"@),
        ],
{
    if 1 <= g && g <= 9 {
        return None;
    }
    let d = u64_to_decimal(g as u64);
    let msg = cat3("Invalid generation '", d.as_str(), "'. Valid values: 1-9");
    let v = vec![Action::new("list", "pokedex pokemon list")];
    assert(views_of(v@) =~= seq![act("list"@, "pokedex pokemon list"@)]);
    Some(ErrorResponse::invalid_parameter(msg.as_str(), v))
}

/// The species categories.
pub open spec fn category_names() -> Seq<Seq<char>> {
    seq!["legendary"@, "mythical"@, "baby"@]
}

/// The error for a category that is none of the three, ignoring ASCII case.
/// `pokemon list` reports it and lists anyway, without that filter.
pub fn check_category(c: &str) -> (r: Option<ErrorResponse>)
    ensures
        r is None <==> (eq_ignore_ascii_case_spec("legendary"@, c@) || eq_ignore_ascii_case_spec("mythical"@, c@)
            || eq_ignore_ascii_case_spec("baby"@, c@)),
        r matches Some(e) ==> e.error.code@ == "INVALID_PARAMETER"@ && e.error.message@
            == crate::commands::invalid_value_message("category"@, c@, category_names()) && views_of(e.actions@) == seq![
            act("list"@, "pokedex pokemon list"@),
        ],
{
    if eq_ignore_ascii_case("legendary", c) || eq_ignore_ascii_case("mythical", c) || eq_ignore_ascii_case("baby", c) {
        return None;
    }
    let names = vec!["legendary", "mythical", "baby"];
    assert(names@.map_values(|p: &str| p@) =~= category_names());
    let msg = crate::commands::invalid_value("category", c, &names);
    let v = vec![Action::new("list", "pokedex pokemon list")];
    assert(views_of(v@) =~= seq![act("list"@, "pokedex pokemon list"@)]);
    Some(ErrorResponse::invalid_parameter(msg.as_str(), v))
}

/// The command of `pokemon list` with its filters.
pub open spec fn list_command_spec(type_filter: Option<Seq<char>>, generation: Option<u32>, category: Option<Seq<char>>) -> Seq<char> {
    "pokedex pokemon list"@ + opt_flag("type-filter"@, type_filter) + opt_flag(
        "generation"@,
        match generation {
            Some(g) => Some(decimal(g as nat)),
            None => None,
        },
    ) + opt_flag("category"@, category)
}

/// Builds [`list_command_spec`].
pub fn list_command(type_filter: Option<&str>, generation: Option<u32>, category: Option<&str>) -> (r: String)
    ensures
        r@ == list_command_spec(oview(type_filter), generation, oview(category)),
{
    let mut c = owned("pokedex pokemon list");
    push_opt_flag(&mut c, "type-filter", type_filter);
    match generation {
        Some(g) => {
            let d = u64_to_decimal(g as u64);
            push_opt_flag(&mut c, "generation", Some(d.as_str()));
        },
        None => {
            push_opt_flag(&mut c, "generation", None);
        },
    }
    push_opt_flag(&mut c, "category", category);
    c
}

/// The actions of `pokemon list`.
pub fn list_actions(cmd: &str, limit: u64, offset: u64, total: u64) -> (r: Vec<Action>)
    requires
        offset + limit <= u64::MAX,
    ensures
        views_of(r@) == seq![act("show"@, "pokedex pokemon show {name}"@)] + page_actions(cmd@, limit, offset, total, true),
{
    let mut v = vec![Action::new("show", "pokedex pokemon show {name}")];
    assert(views_of(v@) =~= seq![act("show"@, "pokedex pokemon show {name}"@)]);
    push_page_actions(&mut v, cmd, limit, offset, total, true);
    v
}

// ---------------------------------------------------------------------
// show
// ---------------------------------------------------------------------

/// What the database holds for the form a name selects. For a form with a
/// Pokémon of its own: its types, display name, stats and abilities (none
/// where a lookup failed), the generation the form was introduced in (none
/// where unknown), and, where that Pokémon is the species' default, the
/// form's cosmetic display name. For a name that selects no such Pokémon,
/// only the cosmetic display name.
pub struct FormData {
    pub selects_pokemon: bool,
    pub generation: Option<i64>,
    pub types: Vec<String>,
    pub display_name: Option<String>,
    pub stats: Option<PokemonStats>,
    pub abilities: Option<Vec<AbilityInfo>>,
    pub cosmetic_display_name: Option<String>,
}

/// Replaces the species data by the data of the form the name selects.
pub fn apply_form_data(species: &mut Species, form: FormData)
    ensures
        final(species).id == old(species).id,
        final(species).name == old(species).name,
        final(species).types@ == (if form.selects_pokemon && form.types@.len() > 0 { form.types@ } else { old(species).types@ }),
        final(species).display_name@ == (match form.cosmetic_display_name {
            Some(d) => d@,
            None => if form.selects_pokemon && form.display_name is Some {
                form.display_name->0@
            } else {
                old(species).display_name@
            },
        }),
        final(species).stats == (if form.selects_pokemon && form.stats is Some { form.stats } else { old(species).stats }),
        final(species).abilities@ == (match form.abilities {
            Some(a) => if form.selects_pokemon && a@.len() > 0 { a@ } else { old(species).abilities@ },
            None => old(species).abilities@,
        }),
        final(species).generation == (match form.generation {
            Some(g) => if form.selects_pokemon { g } else { old(species).generation },
            None => old(species).generation,
        }),
        final(species).capture_rate == old(species).capture_rate,
        final(species).evolves_from == old(species).evolves_from,
        final(species).genus == old(species).genus,
        final(species).egg_groups == old(species).egg_groups,
{
    let FormData { selects_pokemon, generation, types, display_name, stats, abilities, cosmetic_display_name } = form;
    if selects_pokemon {
        if let Some(g) = generation {
            species.generation = g;
        }
        if types.len() > 0 {
            species.types = types;
        }
        if let Some(d) = display_name {
            species.display_name = d;
        }
        if let Some(st) = stats {
            species.stats = Some(st);
        }
        if let Some(a) = abilities {
            if a.len() > 0 {
                species.abilities = a;
            }
        }
    }
    if let Some(d) = cosmetic_display_name {
        species.display_name = d;
    }
}

/// The actions of `pokemon show`: the species' other views, adding it to
/// the collection, the matchups of each of its types and the species of its
/// first type.
pub open spec fn show_actions_spec(name: Seq<char>, types: Seq<Seq<char>>) -> Seq<ActionView> {
    seq![
        act("evolutions"@, "pokedex pokemon evolutions "@ + name),
        act("forms"@, "pokedex pokemon forms "@ + name),
        act("stats"@, "pokedex pokemon stats "@ + name),
        act("moves"@, "pokedex pokemon moves "@ + name),
        act("encounters"@, "pokedex pokemon encounters "@ + name),
        act("add_to_collection"@, "pokedex collection add --pokemon="@ + name + " --game=<game>"@),
    ] + types.map_values(|t: Seq<char>| act("type_matchups"@, "pokedex type matchups "@ + lowercase(t))) + if types.len()
        > 0 {
        seq![act("same_type"@, "pokedex type pokemon "@ + lowercase(types[0]))]
    } else {
        seq![]
    }
}

/// Builds [`show_actions_spec`].
pub fn show_actions(name: &str, types: &Vec<String>) -> (r: Vec<Action>)
    ensures
        views_of(r@) == show_actions_spec(name@, types@.map_values(|t: String| t@)),
{
    let ghost tv = types@.map_values(|t: String| t@);
    let e = cat("pokedex pokemon evolutions ", name);
    let f = cat("pokedex pokemon forms ", name);
    let s = cat("pokedex pokemon stats ", name);
    let m = cat("pokedex pokemon moves ", name);
    let n = cat("pokedex pokemon encounters ", name);
    let a = cat3("pokedex collection add --pokemon=", name, " --game=<game>");
    let mut v = vec![
        Action::new("evolutions", e.as_str()),
        Action::new("forms", f.as_str()),
        Action::new("stats", s.as_str()),
        Action::new("moves", m.as_str()),
        Action::new("encounters", n.as_str()),
        Action::new("add_to_collection", a.as_str()),
    ];
    let ghost head = views_of(v@);
    assert(head =~= seq![
        act("evolutions"@, "pokedex pokemon evolutions "@ + name@),
        act("forms"@, "pokedex pokemon forms "@ + name@),
        act("stats"@, "pokedex pokemon stats "@ + name@),
        act("moves"@, "pokedex pokemon moves "@ + name@),
        act("encounters"@, "pokedex pokemon encounters "@ + name@),
        act("add_to_collection"@, "pokedex collection add --pokemon="@ + name@ + " --game=<game>"@),
    ]);
    let mut i: usize = 0;
    while i < types.len()
        invariant
            i <= types@.len(),
            tv == types@.map_values(|t: String| t@),
            views_of(v@) == head + tv.subrange(0, i as int).map_values(
                |t: Seq<char>| act("type_matchups"@, "pokedex type matchups "@ + lowercase(t)),
            ),
        decreases types.len() - i,
    {
        let l = to_lowercase(types[i].as_str());
        let c = cat("pokedex type matchups ", l.as_str());
        let ghost before = views_of(v@);
        v.push(Action::new("type_matchups", c.as_str()));
        assert(views_of(v@) =~= before.push(act("type_matchups"@, "pokedex type matchups "@ + lowercase(tv[i as int]))));
        assert(tv.subrange(0, i + 1) =~= tv.subrange(0, i as int).push(tv[i as int]));
        i = i + 1;
    }
    assert(tv.subrange(0, tv.len() as int) =~= tv);
    let ghost mid = views_of(v@);
    if types.len() > 0 {
        let l = to_lowercase(types[0].as_str());
        let c = cat("pokedex type pokemon ", l.as_str());
        v.push(Action::new("same_type", c.as_str()));
        assert(views_of(v@) =~= mid.push(act("same_type"@, "pokedex type pokemon "@ + lowercase(tv[0]))));
    }
    assert(views_of(v@) =~= show_actions_spec(name@, tv));
    v
}

// ---------------------------------------------------------------------
// search, evolutions, forms, stats
// ---------------------------------------------------------------------

/// The error for a blank search query.
pub fn check_search_query(query: &str) -> (r: Option<ErrorResponse>)
    ensures
        r is None <==> trim_spec(query@).len() > 0,
        r matches Some(e) ==> e.error.code@ == "INVALID_PARAMETER"@ && e.error.message@ == "Search query is required"@
            && views_of(e.actions@) == seq![act("list"@, "pokedex pokemon list --limit=20"@)],
{
    let t = trim(query);
    if t.as_str().unicode_len() > 0 {
        return None;
    }
    let v = vec![Action::new("list", "pokedex pokemon list --limit=20")];
    assert(views_of(v@) =~= seq![act("list"@, "pokedex pokemon list --limit=20"@)]);
    Some(ErrorResponse::invalid_parameter("Search query is required", v))
}

/// One action with relation `rel` and command `<prefix><name>` per name.
pub open spec fn each_name(rel: Seq<char>, prefix: Seq<char>, names: Seq<Seq<char>>) -> Seq<ActionView> {
    names.map_values(|n: Seq<char>| act(rel, prefix + n))
}

/// Builds [`each_name`].
pub fn actions_for_names(rel: &str, prefix: &str, names: &Vec<String>) -> (r: Vec<Action>)
    ensures
        views_of(r@) == each_name(rel@, prefix@, names@.map_values(|n: String| n@)),
{
    let ghost nv = names@.map_values(|n: String| n@);
    let mut v: Vec<Action> = Vec::new();
    let mut i: usize = 0;
    while i < names.len()
        invariant
            i <= names@.len(),
            nv == names@.map_values(|n: String| n@),
            views_of(v@) == each_name(rel@, prefix@, nv.subrange(0, i as int)),
        decreases names.len() - i,
    {
        let c = cat(prefix, names[i].as_str());
        let ghost before = views_of(v@);
        v.push(Action::new(rel, c.as_str()));
        assert(views_of(v@) =~= before.push(act(rel@, prefix@ + nv[i as int])));
        assert(nv.subrange(0, i + 1) =~= nv.subrange(0, i as int).push(nv[i as int]));
        i = i + 1;
    }
    assert(nv.subrange(0, nv.len() as int) =~= nv);
    v
}

/// The actions of `pokemon search`: the found species, or the species list.
pub fn search_actions(names: &Vec<String>) -> (r: Vec<Action>)
    ensures
        views_of(r@) == (if names@.len() == 0 {
            seq![act("list"@, "pokedex pokemon list --limit=20"@)]
        } else {
            each_name("show"@, "pokedex pokemon show "@, names@.map_values(|n: String| n@))
        }),
{
    if names.len() == 0 {
        let v = vec![Action::new("list", "pokedex pokemon list --limit=20")];
        assert(views_of(v@) =~= seq![act("list"@, "pokedex pokemon list --limit=20"@)]);
        v
    } else {
        actions_for_names("show", "pokedex pokemon show ", names)
    }
}

/// The actions of `pokemon forms`: the species, then adding each named
/// form to the collection.
pub open spec fn forms_actions_spec(name: Seq<char>, forms: Seq<Option<Seq<char>>>) -> Seq<ActionView> {
    seq![act("show"@, "pokedex pokemon show "@ + name)] + crate::commands::collection::present(forms).map_values(
        |f: Seq<char>| act("add_form_to_collection"@, "pokedex collection add --pokemon="@ + name + " --form="@ + f + " --game=<game>"@),
    )
}

/// Builds [`forms_actions_spec`] from the form names (none for unnamed forms).
pub fn forms_actions(name: &str, forms: &Vec<Option<String>>) -> (r: Vec<Action>)
    ensures
        views_of(r@) == forms_actions_spec(name@, forms@.map_values(|f: Option<String>| osview(f))),
{
    let ghost fv = forms@.map_values(|f: Option<String>| osview(f));
    let s = cat("pokedex pokemon show ", name);
    let mut v = vec![Action::new("show", s.as_str())];
    let ghost head = seq![act("show"@, "pokedex pokemon show "@ + name@)];
    assert(views_of(v@) =~= head);
    let mut i: usize = 0;
    while i < forms.len()
        invariant
            i <= forms@.len(),
            fv == forms@.map_values(|f: Option<String>| osview(f)),
            views_of(v@) == head + crate::commands::collection::present(fv.subrange(0, i as int)).map_values(
                |f: Seq<char>|
                    act("add_form_to_collection"@, "pokedex collection add --pokemon="@ + name@ + " --form="@ + f + " --game=<game>"@),
            ),
        decreases forms.len() - i,
    {
        let ghost pre = fv.subrange(0, i + 1);
        assert(pre.drop_last() =~= fv.subrange(0, i as int));
        let ghost before = views_of(v@);
        if let Some(f) = &forms[i] {
            let mut c = cat3("pokedex collection add --pokemon=", name, " --form=");
            c.append(f.as_str());
            c.append(" --game=<game>");
            v.push(Action::new("add_form_to_collection", c.as_str()));
            assert(views_of(v@) =~= before.push(
                act("add_form_to_collection"@, "pokedex collection add --pokemon="@ + name@ + " --form="@ + f@ + " --game=<game>"@),
            ));
        }
        assert(views_of(v@) =~= head + crate::commands::collection::present(pre).map_values(
            |f: Seq<char>|
                act("add_form_to_collection"@, "pokedex collection add --pokemon="@ + name@ + " --form="@ + f + " --game=<game>"@),
        ));
        i = i + 1;
    }
    assert(fv.subrange(0, fv.len() as int) =~= fv);
    v
}

/// The actions of `pokemon stats`.
pub fn stats_actions(name: &str) -> (r: Vec<Action>)
    ensures
        views_of(r@) == seq![
            act("show"@, "pokedex pokemon show "@ + name@),
            act("moves"@, "pokedex pokemon moves "@ + name@),
            act("evolutions"@, "pokedex pokemon evolutions "@ + name@),
        ],
{
    let a = cat("pokedex pokemon show ", name);
    let b = cat("pokedex pokemon moves ", name);
    let c = cat("pokedex pokemon evolutions ", name);
    let v = vec![Action::new("show", a.as_str()), Action::new("moves", b.as_str()), Action::new("evolutions", c.as_str())];
    assert(views_of(v@) =~= seq![v@[0]@, v@[1]@, v@[2]@]);
    v
}

// ---------------------------------------------------------------------
// encounters, moves
// ---------------------------------------------------------------------

/// The distinct strings of a list, each at its first occurrence.
pub open spec fn distinct(s: Seq<Seq<char>>) -> Seq<Seq<char>>
    decreases s.len(),
{
    if s.len() == 0 {
        seq![]
    } else if distinct(s.drop_last()).contains(s.last()) {
        distinct(s.drop_last())
    } else {
        distinct(s.drop_last()).push(s.last())
    }
}

/// The actions of `pokemon encounters`: the species, adding it to the
/// collection in the filtered game (or any game), and, without a game
/// filter, one filter per game the encounters are in.
pub open spec fn encounters_actions_spec(name: Seq<char>, game: Option<Seq<char>>, slugs: Seq<Seq<char>>) -> Seq<ActionView> {
    seq![
        act("show"@, "pokedex pokemon show "@ + name),
        act(
            "add_to_collection"@,
            "pokedex collection add --pokemon="@ + name + " --game="@ + match game {
                Some(g) => g,
                None => "<game>"@,
            },
        ),
    ] + if game is None {
        each_name("filter_game"@, "pokedex pokemon encounters "@ + name + " --game="@, distinct(slugs))
    } else {
        seq![]
    }
}

/// Builds [`encounters_actions_spec`] and the command of the listing;
/// `slugs` are the game slugs of the encounters found.
pub fn encounters_actions(name: &str, game: Option<&str>, slugs: &Vec<String>) -> (r: (Vec<Action>, String))
    ensures
        views_of(r.0@) == encounters_actions_spec(name@, oview(game), slugs@.map_values(|s: String| s@)),
        r.1@ == "pokedex pokemon encounters "@ + name@ + opt_flag("game"@, oview(game)),
{
    let ghost sv = slugs@.map_values(|s: String| s@);
    let mut cmd = cat("pokedex pokemon encounters ", name);
    push_opt_flag(&mut cmd, "game", game);
    let s = cat("pokedex pokemon show ", name);
    let g = match game { Some(x) => x, None => "<game>" };
    let mut a = cat3("pokedex collection add --pokemon=", name, " --game=");
    a.append(g);
    let mut v = vec![Action::new("show", s.as_str()), Action::new("add_to_collection", a.as_str())];
    let ghost head = views_of(v@);
    assert(head =~= seq![v@[0]@, v@[1]@]);
    if game.is_none() {
        let mut seen: Vec<String> = Vec::new();
        let mut i: usize = 0;
        while i < slugs.len()
            invariant
                i <= slugs@.len(),
                sv == slugs@.map_values(|s: String| s@),
                seen@.map_values(|s: String| s@) == distinct(sv.subrange(0, i as int)),
            decreases slugs.len() - i,
        {
            let ghost pre = sv.subrange(0, i + 1);
            assert(pre.drop_last() =~= sv.subrange(0, i as int));
            let ghost dv = seen@.map_values(|s: String| s@);
            let mut found = false;
            let mut k: usize = 0;
            while k < seen.len()
                invariant
                    k <= seen@.len(),
                    i < slugs@.len(),
                    sv == slugs@.map_values(|s: String| s@),
                    dv == seen@.map_values(|s: String| s@),
                    found ==> dv.contains(sv[i as int]),
                    !found ==> forall|j: int| 0 <= j < k ==> dv[j] != sv[i as int],
                decreases seen.len() - k,
            {
                if str_eq(seen[k].as_str(), slugs[i].as_str()) {
                    assert(dv[k as int] == sv[i as int]);
                    found = true;
                }
                k = k + 1;
            }
            if !found {
                seen.push(slugs[i].clone());
                assert(seen@.map_values(|s: String| s@) =~= dv.push(sv[i as int]));
            }
            i = i + 1;
        }
        assert(sv.subrange(0, sv.len() as int) =~= sv);
        let prefix = cat3("pokedex pokemon encounters ", name, " --game=");
        let more = actions_for_names("filter_game", prefix.as_str(), &seen);
        let mut j: usize = 0;
        while j < more.len()
            invariant
                j <= more@.len(),
                views_of(v@) == head + views_of(more@).subrange(0, j as int),
            decreases more.len() - j,
        {
            let ghost before = views_of(v@);
            v.push(more[j].clone_action());
            assert(views_of(v@) =~= before.push(views_of(more@)[j as int]));
            assert(views_of(more@).subrange(0, j + 1) =~= views_of(more@).subrange(0, j as int).push(
                views_of(more@)[j as int],
            ));
            j = j + 1;
        }
        assert(views_of(more@).subrange(0, more@.len() as int) =~= views_of(more@));
    } else {
        assert(views_of(v@) =~= head + seq![]);
    }
    (v, cmd)
}

/// Whether a learn method is among the known ones, ignoring ASCII case.
pub open spec fn method_known(methods: Seq<Seq<char>>, m: Seq<char>) -> bool {
    exists|i: int| 0 <= i < methods.len() && eq_ignore_ascii_case_spec(#[trigger] methods[i], m)
}

/// Checks a learn-method filter of `pokemon moves` against the methods in
/// the database.
pub fn check_move_method(name: &str, methods: &Vec<String>, m: &str) -> (r: Option<ErrorResponse>)
    ensures
        r is None <==> method_known(methods@.map_values(|s: String| s@), m@),
        r matches Some(e) ==> e.error.code@ == "INVALID_PARAMETER"@ && e.error.message@ == "Invalid method '"@ + m@
            + "'. Valid values: "@ + join_spec(methods@.map_values(|s: String| s@), ", "@) && views_of(e.actions@)
            == each_name("did_you_mean"@, "pokedex pokemon moves "@ + name@ + " --method="@, methods@.map_values(|s: String| s@)),
{
    let ghost mv = methods@.map_values(|s: String| s@);
    let mut i: usize = 0;
    while i < methods.len()
        invariant
            i <= methods@.len(),
            mv == methods@.map_values(|s: String| s@),
            forall|j: int| 0 <= j < i ==> !eq_ignore_ascii_case_spec(#[trigger] mv[j], m@),
        decreases methods.len() - i,
    {
        if eq_ignore_ascii_case(methods[i].as_str(), m) {
            assert(eq_ignore_ascii_case_spec(mv[i as int], m@));
            return None;
        }
        i = i + 1;
    }
    let mut msg = cat3("Invalid method '", m, "'. Valid values: ");
    let j = join_strings(methods.as_slice(), ", ");
    msg.append(j.as_str());
    let prefix = cat3("pokedex pokemon moves ", name, " --method=");
    let v = actions_for_names("did_you_mean", prefix.as_str(), methods);
    Some(ErrorResponse::invalid_parameter(msg.as_str(), v))
}

/// The command of `pokemon moves` with its filters.
pub open spec fn moves_command_spec(name: Seq<char>, game: Option<Seq<char>>, method: Option<Seq<char>>) -> Seq<char> {
    "pokedex pokemon moves "@ + name + opt_flag("game"@, game) + opt_flag("method"@, method)
}

/// The actions of `pokemon moves`: the species, filters by learn method
/// where none is given, and the pages.
pub open spec fn moves_actions_spec(
    name: Seq<char>,
    game: Option<Seq<char>>,
    method: Option<Seq<char>>,
    limit: u64,
    offset: u64,
    total: u64,
) -> Seq<ActionView> {
    let base = "pokedex pokemon moves "@ + name + " --method="@;
    seq![act("show"@, "pokedex pokemon show "@ + name)] + (if method is None {
        seq![
            act("filter_level_up"@, base + "level-up"@),
            act("filter_tm"@, base + "machine"@),
            act("filter_egg"@, base + "egg"@),
            act("filter_tutor"@, base + "tutor"@),
        ]
    } else {
        seq![]
    }) + page_actions(moves_command_spec(name, game, method), limit, offset, total, true)
}

/// Builds the command and actions of `pokemon moves`.
pub fn moves_actions(
    name: &str,
    game: Option<&str>,
    method: Option<&str>,
    limit: u64,
    offset: u64,
    total: u64,
) -> (r: (Vec<Action>, String))
    requires
        offset + limit <= u64::MAX,
    ensures
        r.1@ == moves_command_spec(name@, oview(game), oview(method)),
        views_of(r.0@) == moves_actions_spec(name@, oview(game), oview(method), limit, offset, total),
{
    let mut cmd = cat("pokedex pokemon moves ", name);
    push_opt_flag(&mut cmd, "game", game);
    push_opt_flag(&mut cmd, "method", method);
    let s = cat("pokedex pokemon show ", name);
    let mut v = vec![Action::new("show", s.as_str())];
    let ghost head = views_of(v@);
    assert(head =~= seq![act("show"@, "pokedex pokemon show "@ + name@)]);
    if method.is_none() {
        let base = cat3("pokedex pokemon moves ", name, " --method=");
        let a = cat(base.as_str(), "level-up");
        let b = cat(base.as_str(), "machine");
        let c = cat(base.as_str(), "egg");
        let d = cat(base.as_str(), "tutor");
        v.push(Action::new("filter_level_up", a.as_str()));
        v.push(Action::new("filter_tm", b.as_str()));
        v.push(Action::new("filter_egg", c.as_str()));
        v.push(Action::new("filter_tutor", d.as_str()));
    }
    let ghost mid = views_of(v@);
    assert(mid =~= head + (if method is None {
        seq![
            act("filter_level_up"@, "pokedex pokemon moves "@ + name@ + " --method="@ + "level-up"@),
            act("filter_tm"@, "pokedex pokemon moves "@ + name@ + " --method="@ + "machine"@),
            act("filter_egg"@, "pokedex pokemon moves "@ + name@ + " --method="@ + "egg"@),
            act("filter_tutor"@, "pokedex pokemon moves "@ + name@ + " --method="@ + "tutor"@),
        ]
    } else {
        seq![]
    }));
    push_page_actions(&mut v, cmd.as_str(), limit, offset, total, true);
    (v, cmd)
}

} // verus!
