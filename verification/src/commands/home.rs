//! Decisions of the `home` commands.
use vstd::prelude::*;
use crate::commands::{page_actions, push_page_actions};
use crate::output::{act, views_of, Action, ActionView, ErrorResponse};
use crate::text::{cat, cat3};

verus! {

/// The actions of `home status`.
pub fn status_actions() -> (r: Vec<Action>)
    ensures
        views_of(r@) == seq![
            act("coverage"@, "pokedex home coverage"@),
            act("missing"@, "pokedex home missing"@),
            act("collection_in_home"@, "pokedex collection list --in-home"@),
        ],
{
    let v = vec![
        Action::new("coverage", "pokedex home coverage"),
        Action::new("missing", "pokedex home missing"),
        Action::new("collection_in_home", "pokedex collection list --in-home"),
    ];
    assert(views_of(v@) =~= seq![v@[0]@, v@[1]@, v@[2]@]);
    v
}

/// The error of `home transferable` for a name that resolves to no species.
pub fn unknown_transferable(pokemon: &str) -> (e: ErrorResponse)
    ensures
        e.error.code@ == "NOT_FOUND"@,
        e.error.message@ == "No pokémon named '"@ + pokemon@ + "'"@,
        views_of(e.actions@) == seq![act("search"@, "pokedex pokemon search "@ + pokemon@)],
{
    let msg = cat3("No pokémon named '", pokemon, "'");
    let c = cat("pokedex pokemon search ", pokemon);
    let v = vec![Action::new("search", c.as_str())];
    assert(views_of(v@) =~= seq![act("search"@, "pokedex pokemon search "@ + pokemon@)]);
    ErrorResponse::not_found(msg.as_str(), v)
}

/// The actions of `home transferable`.
pub fn transferable_actions(name: &str) -> (r: Vec<Action>)
    ensures
        views_of(r@) == seq![
            act("show_pokemon"@, "pokedex pokemon show "@ + name@),
            act("add_to_collection"@, "pokedex collection add --pokemon="@ + name@ + " --game=<game> --in-home"@),
        ],
{
    let a = cat("pokedex pokemon show ", name);
    let b = cat3("pokedex collection add --pokemon=", name, " --game=<game> --in-home");
    let v = vec![Action::new("show_pokemon", a.as_str()), Action::new("add_to_collection", b.as_str())];
    assert(views_of(v@) =~= seq![v@[0]@, v@[1]@]);
    v
}

/// The dex `home missing` pages through: the one named, else the national
/// dex, else none.
pub fn missing_dex(named: Option<(i64, String)>, national: Option<(i64, String)>) -> (r: Option<(i64, String)>)
    ensures
        r == (if named is Some { named } else { national }),
{
    match named {
        Some(d) => Some(d),
        None => national,
    }
}

/// The actions of `home missing`.
pub open spec fn missing_actions_spec(dex_name: Seq<char>, limit: u64, offset: u64, total: u64) -> Seq<ActionView> {
    seq![
        act("show"@, "pokedex pokemon show {species_name}"@),
        act("coverage"@, "pokedex home coverage"@),
    ] + page_actions("pokedex home missing --dex="@ + dex_name, limit, offset, total, false)
}

/// Builds [`missing_actions_spec`] and the command of the listing.
pub fn missing_actions(dex_name: &str, limit: u64, offset: u64, total: u64) -> (r: (Vec<Action>, String))
    requires
        offset + limit <= u64::MAX,
    ensures
        r.1@ == "pokedex home missing --dex="@ + dex_name@,
        views_of(r.0@) == missing_actions_spec(dex_name@, limit, offset, total),
{
    let cmd = cat("pokedex home missing --dex=", dex_name);
    let mut v = vec![
        Action::new("show", "pokedex pokemon show {species_name}"),
        Action::new("coverage", "pokedex home coverage"),
    ];
    assert(views_of(v@) =~= seq![v@[0]@, v@[1]@]);
    push_page_actions(&mut v, cmd.as_str(), limit, offset, total, false);
    (v, cmd)
}

/// The actions of `home coverage`.
pub fn coverage_actions() -> (r: Vec<Action>)
    ensures
        views_of(r@) == seq![
            act("missing"@, "pokedex home missing"@),
            act("status"@, "pokedex home status"@),
            act("dex_progress"@, "pokedex dex progress national"@),
        ],
{
    let v = vec![
        Action::new("missing", "pokedex home missing"),
        Action::new("status", "pokedex home status"),
        Action::new("dex_progress", "pokedex dex progress national"),
    ];
    assert(views_of(v@) =~= seq![v@[0]@, v@[1]@, v@[2]@]);
    v
}

} // verus!
