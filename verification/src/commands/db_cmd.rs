//! Decisions of the `db seed` command.
use vstd::prelude::*;
use crate::output::{act, views_of, Action};

verus! {

/// What `db seed` does for a given database state.
#[derive(Debug, Clone, Copy, PartialEq, Eq, Structural)]
pub enum SeedAction {
    /// The database is seeded and no refresh was asked for: report and stop.
    AlreadySeeded,
    /// The database is seeded and a refresh was asked for: drop reference data and seed again.
    Reseed,
    /// The database is empty: seed it.
    FreshSeed,
}

/// Chooses the seeding action from whether the database is seeded and
/// whether `--refresh` was given.
pub fn seed_decision(is_seeded: bool, refresh: bool) -> (a: SeedAction)
    ensures
        a == (if !is_seeded {
            SeedAction::FreshSeed
        } else if refresh {
            SeedAction::Reseed
        } else {
            SeedAction::AlreadySeeded
        }),
{
    if !is_seeded {
        SeedAction::FreshSeed
    } else if refresh {
        SeedAction::Reseed
    } else {
        SeedAction::AlreadySeeded
    }
}

/// The message of `db seed` on a seeded database without `--refresh`.
pub fn already_seeded_message() -> (r: &'static str)
    ensures
        r@ == "Database already seeded. Use --refresh to re-download and reseed."@,
{
    "Database already seeded. Use --refresh to re-download and reseed."
}

/// The actions of `db seed` on a seeded database without `--refresh`.
pub fn already_seeded_actions() -> (r: Vec<Action>)
    ensures
        views_of(r@) == seq![
            act("refresh"@, "pokedex db seed --refresh"@),
            act("pokemon_list"@, "pokedex pokemon list"@),
        ],
{
    let v = vec![Action::new("refresh", "pokedex db seed --refresh"), Action::new("pokemon_list", "pokedex pokemon list")];
    assert(views_of(v@) =~= seq![v@[0]@, v@[1]@]);
    v
}

/// The actions after seeding.
pub fn seeded_actions() -> (r: Vec<Action>)
    ensures
        views_of(r@) == seq![
            act("pokemon_list"@, "pokedex pokemon list"@),
            act("dex_list"@, "pokedex dex list"@),
            act("type_list"@, "pokedex type list"@),
            act("game_list"@, "pokedex game list"@),
        ],
{
    let v = vec![
        Action::new("pokemon_list", "pokedex pokemon list"),
        Action::new("dex_list", "pokedex dex list"),
        Action::new("type_list", "pokedex type list"),
        Action::new("game_list", "pokedex game list"),
    ];
    assert(views_of(v@) =~= seq![v@[0]@, v@[1]@, v@[2]@, v@[3]@]);
    v
}

/// Whether the downloaded data is removed after seeding: only data this
/// command downloaded, and only without `--keep-cache`.
pub fn clears_cache(keep_cache: bool, from_given: bool) -> (b: bool)
    ensures
        b == (!keep_cache && !from_given),
{
    !keep_cache && !from_given
}

} // verus!
