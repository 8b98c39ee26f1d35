//! Decisions of the `collection` commands: what `add`, `remove`, `update`,
//! `list`, `show` and `stats` accept, which warnings and errors they give,
//! and which follow-up actions and command lines they return.
use vstd::prelude::*;
use crate::commands::{
    bool_flag, did_you_mean_each, invalid_choice, invalid_value_message, is_valid_method, is_valid_status,
    method_names, opt_flag, oview, osview, push_bool_flag, push_opt_flag, status_names, suggest_each,
    valid_methods, valid_statuses,
};
use crate::output::{act, views_of, Action, ActionView, ErrorResponse};
use crate::text::{
    cat, cat3, has_prefix, i64_to_decimal, join_spec, join_strings, lowercase, owned, signed_decimal, str_eq,
    strip_prefix, to_lowercase, trim_start_char, trim_start_char_spec,
};

verus! {

// ---------------------------------------------------------------------
// Shared pieces
// ---------------------------------------------------------------------

/// The command that shows one entry.
pub open spec fn show_command(id: i64) -> Seq<char> {
    "pokedex collection show "@ + signed_decimal(id as int)
}

/// The error for an id that names no entry.
pub fn entry_not_found(id: i64) -> (e: ErrorResponse)
    ensures
        e.error.code@ == "NOT_FOUND"@,
        e.error.message@ == "No collection entry with id "@ + signed_decimal(id as int),
        views_of(e.actions@) == seq![act("list"@, "pokedex collection list"@)],
{
    let n = i64_to_decimal(id);
    let msg = cat("No collection entry with id ", n.as_str());
    let v = vec![Action::new("list", "pokedex collection list")];
    assert(views_of(v@) =~= seq![act("list"@, "pokedex collection list"@)]);
    ErrorResponse::not_found(msg.as_str(), v)
}

/// The slug of a species in a form: `<species>-<form>`, or the species.
pub open spec fn pokemon_slug(species: Seq<char>, form: Option<Seq<char>>) -> Seq<char> {
    match form {
        Some(f) => species + "-"@ + f,
        None => species,
    }
}

/// Builds [`pokemon_slug`].
pub fn slug_of(species: &str, form: Option<&str>) -> (r: String)
    ensures
        r@ == pokemon_slug(species@, oview(form)),
{
    match form {
        Some(f) => cat3(species, "-", f),
        None => owned(species),
    }
}

// ---------------------------------------------------------------------
// add: resolving the species, the game and the form
// ---------------------------------------------------------------------

/// ` --form=<f>` where a form was given.
pub fn form_flag(form: Option<&str>) -> (r: String)
    ensures
        r@ == opt_flag("form"@, oview(form)),
{
    let mut r = String::new();
    proof {
        reveal_strlit("");
    }
    assert(r@ =~= seq![]);
    push_opt_flag(&mut r, "form", form);
    r
}

/// The suggestions when no species is named `pokemon`: one `did_you_mean`
/// per close species name (the search results, best first), or a search
/// and the species list where there are none.
pub open spec fn unknown_pokemon_actions(
    pokemon: Seq<char>,
    game: Seq<char>,
    form: Option<Seq<char>>,
    close: Seq<Seq<char>>,
) -> Seq<ActionView> {
    if close.len() == 0 {
        seq![
            act("search"@, "pokedex pokemon search "@ + pokemon),
            act("list"@, "pokedex pokemon list --limit=20"@),
        ]
    } else {
        close.map_values(
            |n: Seq<char>|
                act("did_you_mean"@, "pokedex collection add --pokemon="@ + n + " --game="@ + game + opt_flag("form"@, form)),
        )
    }
}

/// The error of `collection add` for a name that resolves to no species.
pub fn unknown_pokemon(pokemon: &str, game: &str, form: Option<&str>, close: &Vec<&str>) -> (e: ErrorResponse)
    ensures
        e.error.code@ == "NOT_FOUND"@,
        e.error.message@ == "No pokémon named '"@ + pokemon@ + "'"@,
        views_of(e.actions@) == unknown_pokemon_actions(pokemon@, game@, oview(form), close@.map_values(|p: &str| p@)),
{
    let msg = cat3("No pokémon named '", pokemon, "'");
    let ff = form_flag(form);
    let ghost cv = close@.map_values(|p: &str| p@);
    let mut v: Vec<Action> = Vec::new();
    if close.len() == 0 {
        let c = cat("pokedex pokemon search ", pokemon);
        v.push(Action::new("search", c.as_str()));
        v.push(Action::new("list", "pokedex pokemon list --limit=20"));
        assert(views_of(v@) =~= unknown_pokemon_actions(pokemon@, game@, oview(form), cv));
    } else {
        let mut i: usize = 0;
        while i < close.len()
            invariant
                i <= close@.len(),
                cv == close@.map_values(|p: &str| p@),
                ff@ == opt_flag("form"@, oview(form)),
                views_of(v@) == cv.subrange(0, i as int).map_values(
                    |n: Seq<char>|
                        act(
                            "did_you_mean"@,
                            "pokedex collection add --pokemon="@ + n + " --game="@ + game@ + opt_flag("form"@, oview(form)),
                        ),
                ),
            decreases close.len() - i,
        {
            let mut c = cat3("pokedex collection add --pokemon=", close[i], " --game=");
            c.append(game);
            c.append(ff.as_str());
            let ghost before = v@;
            v.push(Action::new("did_you_mean", c.as_str()));
            assert(views_of(v@) =~= views_of(before).push(v@[i as int]@));
            assert(cv.subrange(0, i + 1) =~= cv.subrange(0, i as int).push(cv[i as int]));
            i = i + 1;
        }
        assert(cv.subrange(0, cv.len() as int) =~= cv);
    }
    ErrorResponse::not_found(msg.as_str(), v)
}

/// The suggestions when no game is named like the one given to `add`: the
/// closest games (best first, at most five), or the game list.
pub open spec fn unknown_add_game_actions(
    species: Seq<char>,
    form: Option<Seq<char>>,
    close: Seq<Seq<char>>,
) -> Seq<ActionView> {
    if close.len() == 0 {
        seq![act("list"@, "pokedex game list"@)]
    } else {
        close.take(if close.len() < 5 { close.len() as int } else { 5 }).map_values(
            |g: Seq<char>|
                act("did_you_mean"@, "pokedex collection add --pokemon="@ + species + " --game="@ + g + opt_flag("form"@, form)),
        )
    }
}

/// The error of `collection add` for a game name that resolves to no game.
pub fn unknown_add_game(species: &str, game: &str, form: Option<&str>, close: &Vec<&str>) -> (e: ErrorResponse)
    ensures
        e.error.code@ == "NOT_FOUND"@,
        e.error.message@ == "No game named '"@ + game@ + "'"@,
        views_of(e.actions@) == unknown_add_game_actions(species@, oview(form), close@.map_values(|p: &str| p@)),
{
    let msg = cat3("No game named '", game, "'");
    let ff = form_flag(form);
    let ghost cv = close@.map_values(|p: &str| p@);
    let mut v: Vec<Action> = Vec::new();
    if close.len() == 0 {
        v.push(Action::new("list", "pokedex game list"));
        assert(views_of(v@) =~= unknown_add_game_actions(species@, oview(form), cv));
    } else {
        let n: usize = if close.len() < 5 { close.len() } else { 5 };
        let mut i: usize = 0;
        while i < n
            invariant
                n <= close@.len(),
                n == (if close@.len() < 5 { close@.len() } else { 5 }),
                i <= n,
                cv == close@.map_values(|p: &str| p@),
                ff@ == opt_flag("form"@, oview(form)),
                views_of(v@) == cv.subrange(0, i as int).map_values(
                    |g: Seq<char>|
                        act(
                            "did_you_mean"@,
                            "pokedex collection add --pokemon="@ + species@ + " --game="@ + g + opt_flag("form"@, oview(form)),
                        ),
                ),
            decreases n - i,
        {
            let mut c = cat3("pokedex collection add --pokemon=", species, " --game=");
            c.append(close[i]);
            c.append(ff.as_str());
            let ghost before = v@;
            v.push(Action::new("did_you_mean", c.as_str()));
            assert(views_of(v@) =~= views_of(before).push(v@[i as int]@));
            assert(cv.subrange(0, i + 1) =~= cv.subrange(0, i as int).push(cv[i as int]));
            i = i + 1;
        }
        assert(cv.subrange(0, n as int) =~= cv.take(n as int));
    }
    ErrorResponse::not_found(msg.as_str(), v)
}

/// The checks of `collection add` on status and method, in that order: an
/// unknown status, then an unknown method, gives an `INVALID_PARAMETER`
/// error whose suggestions repeat the command with each accepted value.
pub open spec fn add_choice_error(
    e: ErrorResponse,
    species: Seq<char>,
    game: Seq<char>,
    status: Seq<char>,
    method: Option<Seq<char>>,
) -> bool {
    let base = "pokedex collection add --pokemon="@ + species + " --game="@ + game;
    if !status_names().contains(status) {
        &&& e.error.message@ == invalid_value_message("status"@, status, status_names())
        &&& views_of(e.actions@) == did_you_mean_each(base + " --status="@, status_names())
    } else {
        &&& method matches Some(m)
        &&& e.error.message@ == invalid_value_message("method"@, m, method_names())
        &&& views_of(e.actions@) == did_you_mean_each(base + " --method="@, method_names())
    }
}

/// Validates the status and method given to `collection add`.
pub fn check_add_choices(species: &str, game: &str, status: &str, method: Option<&str>) -> (r: Option<ErrorResponse>)
    ensures
        r is None <==> status_names().contains(status@) && (method matches Some(m) ==> method_names().contains(m@)),
        r matches Some(e) ==> e.error.code@ == "INVALID_PARAMETER"@ && add_choice_error(e, species@, game@, status@, oview(method)),
{
    let mut base = cat3("pokedex collection add --pokemon=", species, " --game=");
    base.append(game);
    if !is_valid_status(status) {
        let names = valid_statuses();
        let prefix = cat(base.as_str(), " --status=");
        return Some(invalid_choice("status", status, &names, prefix.as_str()));
    }
    if let Some(m) = method {
        if !is_valid_method(m) {
            let names = valid_methods();
            let prefix = cat(base.as_str(), " --method=");
            return Some(invalid_choice("method", m, &names, prefix.as_str()));
        }
    }
    None
}

/// The form `add` records: the one given, else the rest of the name typed
/// after the species name and any dashes (`vulpix-alola` gives `alola`),
/// compared lower-cased; none where nothing is left.
pub open spec fn effective_form(pokemon: Seq<char>, species: Seq<char>, form: Option<Seq<char>>) -> Option<Seq<char>> {
    match form {
        Some(f) => Some(f),
        None => {
            let p = lowercase(pokemon);
            let s = lowercase(species);
            if p == s || !has_prefix(p, s) {
                None
            } else {
                let rest = trim_start_char_spec(p.subrange(s.len() as int, p.len() as int), '-');
                if rest.len() == 0 { None } else { Some(rest) }
            }
        },
    }
}

/// Builds [`effective_form`].
pub fn resolve_effective_form(pokemon: &str, species: &str, form: Option<&str>) -> (r: Option<String>)
    ensures
        osview(r) == effective_form(pokemon@, species@, oview(form)),
{
    match form {
        Some(f) => Some(owned(f)),
        None => {
            let p = to_lowercase(pokemon);
            let s = to_lowercase(species);
            if str_eq(p.as_str(), s.as_str()) {
                return None;
            }
            match strip_prefix(p.as_str(), s.as_str()) {
                Some(rest) => {
                    let t = trim_start_char(rest.as_str(), '-');
                    if t.as_str().unicode_len() == 0 { None } else { Some(t) }
                },
                None => None,
            }
        },
    }
}

/// The error for a form the species does not have.
pub open spec fn unknown_form_message(species: Seq<char>, form: Seq<char>, forms: Seq<Seq<char>>) -> Seq<char> {
    "No form '"@ + form + "' for "@ + species + ". "@ + (if forms.len() == 0 {
        species + " has no alternate forms"@
    } else {
        "Available forms: "@ + join_spec(forms, ", "@)
    })
}

/// Builds the error for an unknown form; `forms` are the named forms of the
/// species.
pub fn unknown_form(species: &str, form: &str, forms: &Vec<String>) -> (e: ErrorResponse)
    ensures
        e.error.code@ == "NOT_FOUND"@,
        e.error.message@ == unknown_form_message(species@, form@, forms@.map_values(|f: String| f@)),
        views_of(e.actions@) == seq![act("forms"@, "pokedex pokemon forms "@ + species@)],
{
    let mut msg = cat3("No form '", form, "' for ");
    msg.append(species);
    msg.append(". ");
    if forms.len() == 0 {
        msg.append(species);
        msg.append(" has no alternate forms");
    } else {
        msg.append("Available forms: ");
        let j = join_strings(forms.as_slice(), ", ");
        msg.append(j.as_str());
    }
    let c = cat("pokedex pokemon forms ", species);
    let v = vec![Action::new("forms", c.as_str())];
    assert(views_of(v@) =~= seq![act("forms"@, "pokedex pokemon forms "@ + species@)]);
    ErrorResponse::not_found(msg.as_str(), v)
}

// ---------------------------------------------------------------------
// add: warnings
// ---------------------------------------------------------------------

/// The games where alpha Pokémon exist.
pub open spec fn has_alphas(game: Seq<char>) -> bool {
    game == "legends-arceus"@ || game == "legends-za"@
}

/// The warning for `--alpha` in a game without alphas.
pub open spec fn alpha_warning_spec(is_alpha: bool, game: Seq<char>) -> Option<Seq<char>> {
    if is_alpha && !has_alphas(game) {
        Some(
            "Alpha Pokémon only exist in Legends: Arceus and Legends: Z-A, not in "@ + game
                + ". The --alpha flag will be saved but may be incorrect."@,
        )
    } else {
        None
    }
}

/// Builds [`alpha_warning_spec`].
pub fn alpha_warning(is_alpha: bool, game: &str) -> (r: Option<String>)
    ensures
        osview(r) == alpha_warning_spec(is_alpha, game@),
{
    if is_alpha && !str_eq(game, "legends-arceus") && !str_eq(game, "legends-za") {
        let mut w = cat("Alpha Pokémon only exist in Legends: Arceus and Legends: Z-A, not in ", game);
        w.append(". The --alpha flag will be saved but may be incorrect.");
        Some(w)
    } else {
        None
    }
}

/// Acquisition methods that need no wild encounter in the game.
pub open spec fn non_wild_method(m: Seq<char>) -> bool {
    m == "evolve"@ || m == "breed"@ || m == "trade"@ || m == "transfer"@ || m == "gift"@
}

/// Whether `add` skips the encounter check for this method.
pub fn skips_encounter_check(method: Option<&str>) -> (b: bool)
    ensures
        b == (method matches Some(m) && non_wild_method(m@)),
{
    match method {
        Some(m) => str_eq(m, "evolve") || str_eq(m, "breed") || str_eq(m, "trade") || str_eq(m, "transfer")
            || str_eq(m, "gift"),
        None => false,
    }
}

/// The encounter warning from what the database answered: the species'
/// default Pokémon (none: no warning), whether it has encounters in the
/// game's versions (no answer counts as yes), and the two names (no answer
/// reads `unknown`).
pub open spec fn species_in_game_warning(
    default_pokemon: Option<i64>,
    has_encounter: Option<bool>,
    species: Option<Seq<char>>,
    game: Option<Seq<char>>,
) -> Option<Seq<char>> {
    if default_pokemon is None || has_encounter != Some(false) {
        None
    } else {
        let s = match species { Some(x) => x, None => "unknown"@ };
        let g = match game { Some(x) => x, None => "unknown"@ };
        Some("No encounter data found for "@ + s + " in "@ + g + ". The Pokémon may not be obtainable in this game."@)
    }
}

/// Builds [`species_in_game_warning`].
pub fn check_species_in_game(
    default_pokemon: Option<i64>,
    has_encounter: Option<bool>,
    species: Option<&str>,
    game: Option<&str>,
) -> (r: Option<String>)
    ensures
        osview(r) == species_in_game_warning(default_pokemon, has_encounter, oview(species), oview(game)),
{
    if default_pokemon.is_none() {
        return None;
    }
    let has = match has_encounter { Some(b) => b, None => true };
    if has {
        return None;
    }
    let s = match species { Some(x) => x, None => "unknown" };
    let g = match game { Some(x) => x, None => "unknown" };
    let mut w = cat3("No encounter data found for ", s, " in ");
    w.append(g);
    w.append(". The Pokémon may not be obtainable in this game.");
    Some(w)
}

/// The warning for `--in-home` in a game that does not connect to HOME
/// (an unanswered lookup counts as not connecting).
pub open spec fn home_warning_spec(in_home: bool, connects: Option<bool>, game: Seq<char>) -> Option<Seq<char>> {
    if in_home && connects != Some(true) {
        Some(game + " does not connect to Pokémon HOME. The --in-home flag may not be accurate."@)
    } else {
        None
    }
}

/// Builds [`home_warning_spec`].
pub fn home_warning(in_home: bool, connects: Option<bool>, game: &str) -> (r: Option<String>)
    ensures
        osview(r) == home_warning_spec(in_home, connects, game@),
{
    if in_home {
        let c = match connects { Some(b) => b, None => false };
        if !c {
            return Some(cat(game, " does not connect to Pokémon HOME. The --in-home flag may not be accurate."));
        }
    }
    None
}

/// The warnings that are present, in order.
pub open spec fn present(ws: Seq<Option<Seq<char>>>) -> Seq<Seq<char>>
    decreases ws.len(),
{
    if ws.len() == 0 {
        seq![]
    } else {
        present(ws.drop_last()) + match ws.last() {
            Some(w) => seq![w],
            None => seq![],
        }
    }
}

/// The warning of `add`: the encounter, alpha and HOME warnings that are
/// present, joined by single spaces; none where none is present.
pub open spec fn combined_warning(e: Option<Seq<char>>, a: Option<Seq<char>>, h: Option<Seq<char>>) -> Option<Seq<char>> {
    let ps = present(seq![e, a, h]);
    if ps.len() == 0 { None } else { Some(join_spec(ps, " "@)) }
}

/// Builds [`combined_warning`].
pub fn combine_warnings(e: Option<String>, a: Option<String>, h: Option<String>) -> (r: Option<String>)
    ensures
        osview(r) == combined_warning(osview(e), osview(a), osview(h)),
{
    let ghost ws = seq![osview(e), osview(a), osview(h)];
    assert(ws.drop_last().drop_last().drop_last() =~= Seq::<Option<Seq<char>>>::empty());
    assert(present(ws.drop_last().drop_last().drop_last()) =~= Seq::<Seq<char>>::empty());
    assert(ws.drop_last().drop_last() =~= seq![osview(e)]);
    assert(ws.drop_last() =~= seq![osview(e), osview(a)]);
    let mut parts: Vec<String> = Vec::new();
    if let Some(x) = e {
        parts.push(x);
    }
    assert(parts@.map_values(|p: String| p@) =~= present(ws.drop_last().drop_last()));
    if let Some(x) = a {
        parts.push(x);
    }
    assert(parts@.map_values(|p: String| p@) =~= present(ws.drop_last()));
    if let Some(x) = h {
        parts.push(x);
    }
    assert(parts@.map_values(|p: String| p@) =~= present(ws));
    if parts.len() == 0 {
        None
    } else {
        Some(join_strings(parts.as_slice(), " "))
    }
}

// ---------------------------------------------------------------------
// add: what it returns
// ---------------------------------------------------------------------

/// The command a dry run of `add` offers to run for real.
pub open spec fn add_confirm_command(
    species: Seq<char>,
    game: Seq<char>,
    form: Option<Seq<char>>,
    shiny: bool,
    in_home: bool,
    is_alpha: bool,
    status: Seq<char>,
    method: Option<Seq<char>>,
    nickname: Option<Seq<char>>,
    notes: Option<Seq<char>>,
) -> Seq<char> {
    "pokedex collection add --pokemon="@ + species + " --game="@ + game + opt_flag("form"@, form) + bool_flag(
        "shiny"@,
        shiny,
    ) + bool_flag("in-home"@, in_home) + bool_flag("alpha"@, is_alpha) + opt_flag(
        "status"@,
        if status == "caught"@ { None } else { Some(status) },
    ) + opt_flag("method"@, method) + opt_flag("nickname"@, nickname) + opt_flag("notes"@, notes)
}

/// The actions of a dry run of `add`.
pub fn add_dry_run_actions(
    species: &str,
    game: &str,
    form: Option<&str>,
    shiny: bool,
    in_home: bool,
    is_alpha: bool,
    status: &str,
    method: Option<&str>,
    nickname: Option<&str>,
    notes: Option<&str>,
) -> (r: Vec<Action>)
    ensures
        views_of(r@) == seq![
            (
                "confirm"@,
                add_confirm_command(
                    species@,
                    game@,
                    oview(form),
                    shiny,
                    in_home,
                    is_alpha,
                    status@,
                    oview(method),
                    oview(nickname),
                    oview(notes),
                ),
                Some("Run without --dry-run to save"@),
            ),
        ],
{
    let mut c = cat3("pokedex collection add --pokemon=", species, " --game=");
    c.append(game);
    push_opt_flag(&mut c, "form", form);
    push_bool_flag(&mut c, "shiny", shiny);
    push_bool_flag(&mut c, "in-home", in_home);
    push_bool_flag(&mut c, "alpha", is_alpha);
    let st = if str_eq(status, "caught") { None } else { Some(status) };
    push_opt_flag(&mut c, "status", st);
    push_opt_flag(&mut c, "method", method);
    push_opt_flag(&mut c, "nickname", nickname);
    push_opt_flag(&mut c, "notes", notes);
    let v = vec![Action::with_description("confirm", c.as_str(), "Run without --dry-run to save")];
    assert(views_of(v@) =~= seq![v@[0]@]);
    v
}

/// The actions after an entry was added.
pub open spec fn add_actions_spec(id: i64, species: Seq<char>, form: Option<Seq<char>>) -> Seq<ActionView> {
    seq![
        act("show"@, show_command(id)),
        act("list"@, "pokedex collection list"@),
        act("stats"@, "pokedex collection stats"@),
        act("pokemon_info"@, "pokedex pokemon show "@ + pokemon_slug(species, form)),
    ]
}

/// Builds [`add_actions_spec`].
pub fn add_actions(id: i64, species: &str, form: Option<&str>) -> (r: Vec<Action>)
    ensures
        views_of(r@) == add_actions_spec(id, species@, oview(form)),
{
    let n = i64_to_decimal(id);
    let show = cat("pokedex collection show ", n.as_str());
    let slug = slug_of(species, form);
    let info = cat("pokedex pokemon show ", slug.as_str());
    let v = vec![
        Action::new("show", show.as_str()),
        Action::new("list", "pokedex collection list"),
        Action::new("stats", "pokedex collection stats"),
        Action::new("pokemon_info", info.as_str()),
    ];
    assert(views_of(v@) =~= add_actions_spec(id, species@, oview(form)));
    v
}

/// The command recorded in the metadata of `add`: the names as typed, and
/// the form where one was given or found.
pub fn add_meta_command(pokemon: &str, game: &str, form: Option<&str>) -> (r: String)
    ensures
        r@ == "pokedex collection add --pokemon="@ + pokemon@ + " --game="@ + game@ + opt_flag("form"@, oview(form)),
{
    let mut c = cat3("pokedex collection add --pokemon=", pokemon, " --game=");
    c.append(game);
    push_opt_flag(&mut c, "form", form);
    c
}

// ---------------------------------------------------------------------
// remove
// ---------------------------------------------------------------------

/// The command that removes one entry.
pub open spec fn remove_command_spec(id: i64) -> Seq<char> {
    "pokedex collection remove "@ + signed_decimal(id as int)
}

/// Builds [`remove_command_spec`].
pub fn remove_command(id: i64) -> (r: String)
    ensures
        r@ == remove_command_spec(id),
{
    let n = i64_to_decimal(id);
    cat("pokedex collection remove ", n.as_str())
}

/// The actions of a dry run of `remove`.
pub fn remove_dry_run_actions(id: i64) -> (r: Vec<Action>)
    ensures
        views_of(r@) == seq![("confirm"@, remove_command_spec(id), Some("Run without --dry-run to delete"@))],
{
    let c = remove_command(id);
    let v = vec![Action::with_description("confirm", c.as_str(), "Run without --dry-run to delete")];
    assert(views_of(v@) =~= seq![v@[0]@]);
    v
}

// ---------------------------------------------------------------------
// update
// ---------------------------------------------------------------------

/// The command that updates one entry, without flags.
pub open spec fn update_command_spec(id: i64) -> Seq<char> {
    "pokedex collection update "@ + signed_decimal(id as int)
}

/// Builds [`update_command_spec`].
pub fn update_command(id: i64) -> (r: String)
    ensures
        r@ == update_command_spec(id),
{
    let n = i64_to_decimal(id);
    cat("pokedex collection update ", n.as_str())
}

/// The checks of `collection update` on status and method, in that order.
pub open spec fn update_choice_error(e: ErrorResponse, id: i64, status: Option<Seq<char>>, method: Option<Seq<char>>) -> bool {
    if status matches Some(s) && !status_names().contains(s) {
        &&& e.error.message@ == invalid_value_message("status"@, status->0, status_names())
        &&& views_of(e.actions@) == did_you_mean_each(update_command_spec(id) + " --status="@, status_names())
    } else {
        &&& method matches Some(m)
        &&& e.error.message@ == invalid_value_message("method"@, m, method_names())
        &&& views_of(e.actions@) == did_you_mean_each(update_command_spec(id) + " --method="@, method_names())
    }
}

/// Validates the status and method given to `collection update`.
pub fn check_update_choices(id: i64, status: Option<&str>, method: Option<&str>) -> (r: Option<ErrorResponse>)
    ensures
        r is None <==> (status matches Some(s) ==> status_names().contains(s@)) && (method matches Some(m)
            ==> method_names().contains(m@)),
        r matches Some(e) ==> e.error.code@ == "INVALID_PARAMETER"@ && update_choice_error(e, id, oview(status), oview(method)),
{
    let base = update_command(id);
    if let Some(s) = status {
        if !is_valid_status(s) {
            let names = valid_statuses();
            let prefix = cat(base.as_str(), " --status=");
            return Some(invalid_choice("status", s, &names, prefix.as_str()));
        }
    }
    if let Some(m) = method {
        if !is_valid_method(m) {
            let names = valid_methods();
            let prefix = cat(base.as_str(), " --method=");
            return Some(invalid_choice("method", m, &names, prefix.as_str()));
        }
    }
    None
}

/// The error of `collection update` for an unknown game: every known game
/// is suggested.
pub fn unknown_update_game(id: i64, game: &str, all_games: &Vec<&str>) -> (e: ErrorResponse)
    ensures
        e.error.code@ == "NOT_FOUND"@,
        e.error.message@ == "No game named '"@ + game@ + "'"@,
        views_of(e.actions@) == did_you_mean_each(update_command_spec(id) + " --game="@, all_games@.map_values(|p: &str| p@)),
{
    let msg = cat3("No game named '", game, "'");
    let base = update_command(id);
    let prefix = cat(base.as_str(), " --game=");
    let s = suggest_each(prefix.as_str(), all_games);
    ErrorResponse::not_found(msg.as_str(), s)
}

/// An optional flag with a boolean value.
pub open spec fn opt_bool_flag(name: Seq<char>, v: Option<bool>) -> Seq<char> {
    match v {
        Some(b) => " --"@ + name + "="@ + crate::text::bool_text_spec(b),
        None => seq![],
    }
}

/// The command a dry run of `update` offers to run for real (notes are
/// not repeated).
pub open spec fn update_confirm_command(
    id: i64,
    status: Option<Seq<char>>,
    in_home: Option<bool>,
    shiny: Option<bool>,
    nickname: Option<Seq<char>>,
    game: Option<Seq<char>>,
    method: Option<Seq<char>>,
) -> Seq<char> {
    update_command_spec(id) + opt_flag("status"@, status) + opt_bool_flag("in-home"@, in_home) + opt_bool_flag(
        "shiny"@,
        shiny,
    ) + opt_flag("nickname"@, nickname) + opt_flag("game"@, game) + opt_flag("method"@, method)
}

/// The actions of a dry run of `update`.
pub fn update_dry_run_actions(
    id: i64,
    status: Option<&str>,
    in_home: Option<bool>,
    shiny: Option<bool>,
    nickname: Option<&str>,
    game: Option<&str>,
    method: Option<&str>,
) -> (r: Vec<Action>)
    ensures
        views_of(r@) == seq![
            act(
                "confirm"@,
                update_confirm_command(id, oview(status), in_home, shiny, oview(nickname), oview(game), oview(method)),
            ),
            act("show"@, show_command(id)),
        ],
{
    let mut c = update_command(id);
    push_opt_flag(&mut c, "status", status);
    let ih = match in_home { Some(b) => Some(crate::text::bool_text(b)), None => None };
    push_opt_flag(&mut c, "in-home", ih);
    let sh = match shiny { Some(b) => Some(crate::text::bool_text(b)), None => None };
    push_opt_flag(&mut c, "shiny", sh);
    push_opt_flag(&mut c, "nickname", nickname);
    push_opt_flag(&mut c, "game", game);
    push_opt_flag(&mut c, "method", method);
    let n = i64_to_decimal(id);
    let show = cat("pokedex collection show ", n.as_str());
    let v = vec![Action::new("confirm", c.as_str()), Action::new("show", show.as_str())];
    assert(views_of(v@) =~= seq![v@[0]@, v@[1]@]);
    v
}

/// The actions after an update.
pub fn updated_actions(id: i64) -> (r: Vec<Action>)
    ensures
        views_of(r@) == seq![act("show"@, show_command(id)), act("list"@, "pokedex collection list"@)],
{
    let n = i64_to_decimal(id);
    let show = cat("pokedex collection show ", n.as_str());
    let v = vec![Action::new("show", show.as_str()), Action::new("list", "pokedex collection list")];
    assert(views_of(v@) =~= seq![v@[0]@, v@[1]@]);
    v
}

// ---------------------------------------------------------------------
// list, show, stats
// ---------------------------------------------------------------------

/// The listing command with its filters, as the paging actions repeat it.
pub open spec fn list_command_spec(
    game: Option<Seq<char>>,
    pokemon: Option<Seq<char>>,
    shiny_only: bool,
    in_home: bool,
    status: Option<Seq<char>>,
    sort: Seq<char>,
) -> Seq<char> {
    "pokedex collection list"@ + opt_flag("game"@, game) + opt_flag("pokemon"@, pokemon) + bool_flag(
        "shiny-only"@,
        shiny_only,
    ) + bool_flag("in-home"@, in_home) + opt_flag("status"@, status) + opt_flag(
        "sort"@,
        if sort == "id"@ { None } else { Some(sort) },
    )
}

/// Builds [`list_command_spec`].
pub fn list_command(
    game: Option<&str>,
    pokemon: Option<&str>,
    shiny_only: bool,
    in_home: bool,
    status: Option<&str>,
    sort: &str,
) -> (r: String)
    ensures
        r@ == list_command_spec(oview(game), oview(pokemon), shiny_only, in_home, oview(status), sort@),
{
    let mut c = owned("pokedex collection list");
    push_opt_flag(&mut c, "game", game);
    push_opt_flag(&mut c, "pokemon", pokemon);
    push_bool_flag(&mut c, "shiny-only", shiny_only);
    push_bool_flag(&mut c, "in-home", in_home);
    push_opt_flag(&mut c, "status", status);
    let so = if str_eq(sort, "id") { None } else { Some(sort) };
    push_opt_flag(&mut c, "sort", so);
    c
}

/// Validates the status filter and the sort key of `collection list`: an
/// unknown status first, then a sort key other than `id` or `dex`.
pub fn check_list_choices(status: Option<&str>, sort: &str) -> (r: Option<ErrorResponse>)
    ensures
        r is None <==> (status matches Some(s) ==> status_names().contains(s@)) && (sort@ == "id"@ || sort@
            == "dex"@),
        r matches Some(e) ==> e.error.code@ == "INVALID_PARAMETER"@ && (if status matches Some(s) && !status_names().contains(
            s@,
        ) {
            e.error.message@ == invalid_value_message("status"@, status->0@, status_names()) && views_of(e.actions@)
                == did_you_mean_each("pokedex collection list --status="@, status_names())
        } else {
            e.error.message@ == invalid_value_message("sort"@, sort@, seq!["id"@, "dex"@]) && views_of(e.actions@)
                == seq![act("list"@, "pokedex collection list"@)]
        }),
{
    if let Some(s) = status {
        if !is_valid_status(s) {
            let names = valid_statuses();
            return Some(invalid_choice("status", s, &names, "pokedex collection list --status="));
        }
    }
    if !str_eq(sort, "id") && !str_eq(sort, "dex") {
        let sorts = vec!["id", "dex"];
        assert(sorts@.map_values(|p: &str| p@) =~= seq!["id"@, "dex"@]);
        let msg = crate::commands::invalid_value("sort", sort, &sorts);
        let v = vec![Action::new("list", "pokedex collection list")];
        assert(views_of(v@) =~= seq![act("list"@, "pokedex collection list"@)]);
        return Some(ErrorResponse::invalid_parameter(msg.as_str(), v));
    }
    None
}

/// The actions of `collection list`.
pub open spec fn list_actions_spec(cmd: Seq<char>, limit: u64, offset: u64, total: u64) -> Seq<ActionView> {
    seq![act("show"@, "pokedex collection show {id}"@)] + crate::commands::page_actions(cmd, limit, offset, total, true)
        + seq![
        act("stats"@, "pokedex collection stats"@),
        act("add"@, "pokedex collection add --pokemon=<name> --game=<game>"@),
    ]
}

/// Builds [`list_actions_spec`].
pub fn list_actions(cmd: &str, limit: u64, offset: u64, total: u64) -> (r: Vec<Action>)
    requires
        offset + limit <= u64::MAX,
    ensures
        views_of(r@) == list_actions_spec(cmd@, limit, offset, total),
{
    let mut v = vec![Action::new("show", "pokedex collection show {id}")];
    assert(views_of(v@) =~= seq![act("show"@, "pokedex collection show {id}"@)]);
    crate::commands::push_page_actions(&mut v, cmd, limit, offset, total, true);
    let ghost mid = v@;
    v.push(Action::new("stats", "pokedex collection stats"));
    v.push(Action::new("add", "pokedex collection add --pokemon=<name> --game=<game>"));
    assert(views_of(v@) =~= views_of(mid) + seq![
        act("stats"@, "pokedex collection stats"@),
        act("add"@, "pokedex collection add --pokemon=<name> --game=<game>"@),
    ]);
    v
}

/// The actions of `collection show` for an entry.
pub open spec fn show_actions_spec(id: i64, species: Seq<char>, form: Option<Seq<char>>) -> Seq<ActionView> {
    seq![
        act("update"@, update_command_spec(id) + " --status=<status>"@),
        act("remove"@, remove_command_spec(id)),
        act("pokemon_info"@, "pokedex pokemon show "@ + pokemon_slug(species, form)),
        act("list"@, "pokedex collection list"@),
    ]
}

/// Builds [`show_actions_spec`].
pub fn show_actions(id: i64, species: &str, form: Option<&str>) -> (r: Vec<Action>)
    ensures
        views_of(r@) == show_actions_spec(id, species@, oview(form)),
{
    let u = update_command(id);
    let upd = cat(u.as_str(), " --status=<status>");
    let rem = remove_command(id);
    let slug = slug_of(species, form);
    let info = cat("pokedex pokemon show ", slug.as_str());
    let v = vec![
        Action::new("update", upd.as_str()),
        Action::new("remove", rem.as_str()),
        Action::new("pokemon_info", info.as_str()),
        Action::new("list", "pokedex collection list"),
    ];
    assert(views_of(v@) =~= show_actions_spec(id, species@, oview(form)));
    v
}

/// The actions of `collection stats`.
pub open spec fn stats_actions_spec(game: Option<Seq<char>>) -> Seq<ActionView> {
    seq![
        act("list"@, "pokedex collection list"@),
        act("home_status"@, "pokedex home status"@),
        act("home_coverage"@, "pokedex home coverage"@),
        act("dex_progress_national"@, "pokedex dex progress national"@),
    ] + match game {
        Some(g) => seq![act("collection_for_game"@, "pokedex collection list --game="@ + g)],
        None => seq![],
    }
}

/// Builds [`stats_actions_spec`] and the command of `collection stats`.
pub fn stats_actions(game: Option<&str>) -> (r: (Vec<Action>, String))
    ensures
        views_of(r.0@) == stats_actions_spec(oview(game)),
        r.1@ == "pokedex collection stats"@ + opt_flag("game"@, oview(game)),
{
    let mut v = vec![
        Action::new("list", "pokedex collection list"),
        Action::new("home_status", "pokedex home status"),
        Action::new("home_coverage", "pokedex home coverage"),
        Action::new("dex_progress_national", "pokedex dex progress national"),
    ];
    let ghost first = v@;
    if let Some(g) = game {
        let c = cat("pokedex collection list --game=", g);
        v.push(Action::new("collection_for_game", c.as_str()));
    }
    assert(views_of(v@) =~= stats_actions_spec(oview(game)));
    let mut cmd = owned("pokedex collection stats");
    push_opt_flag(&mut cmd, "game", game);
    (v, cmd)
}

} // verus!
