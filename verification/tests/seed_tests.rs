use pokedex::commands::db_cmd::{
    already_seeded_actions, already_seeded_message, clears_cache, seed_decision, seeded_actions, SeedAction,
};
use pokedex::db::{is_seeded_count, resolve_db_path};

#[test]
fn resolve_db_path_uses_env_when_set() {
    let path = resolve_db_path(Some("/tmp/custom.db"), Some("/home/user"));
    assert_eq!(path.as_str(), "/tmp/custom.db");
}

#[test]
fn resolve_db_path_uses_home_when_no_env() {
    let path = resolve_db_path(None, Some("/home/user"));
    assert_eq!(path.as_str(), "/home/user/.pokedex/db.sqlite");
}

#[test]
fn resolve_db_path_falls_back_to_dot_when_no_home() {
    let path = resolve_db_path(None, None);
    assert_eq!(path.as_str(), "./.pokedex/db.sqlite");
}

#[test]
fn seed_decision_already_seeded_no_refresh() {
    assert_eq!(seed_decision(true, false), SeedAction::AlreadySeeded);
}

#[test]
fn seed_decision_already_seeded_with_refresh() {
    assert_eq!(seed_decision(true, true), SeedAction::Reseed);
}

#[test]
fn seed_decision_not_seeded() {
    assert_eq!(seed_decision(false, false), SeedAction::FreshSeed);
}

#[test]
fn seed_decision_not_seeded_with_refresh() {
    assert_eq!(seed_decision(false, true), SeedAction::FreshSeed);
}

#[test]
fn is_seeded_returns_false_on_empty_db() {
    assert!(!is_seeded_count(0));
}

#[test]
fn is_seeded_returns_true_after_seed() {
    assert!(is_seeded_count(1025));
}

#[test]
fn env_path_wins_over_any_home() {
    assert_eq!(resolve_db_path(Some("/x/y.db"), None), resolve_db_path(Some("/x/y.db"), Some("/home/z")));
}

#[test]
fn home_with_trailing_slash_gets_no_double_separator() {
    assert_eq!(resolve_db_path(None, Some("/home/user/")).as_str(), "/home/user/.pokedex/db.sqlite");
}

#[test]
fn already_seeded_response_offers_refresh() {
    assert_eq!(already_seeded_message(), "Database already seeded. Use --refresh to re-download and reseed.");
    let a = already_seeded_actions();
    assert_eq!(a.len(), 2);
    assert_eq!(a[0].rel, "refresh");
    assert_eq!(a[0].cmd, "pokedex db seed --refresh");
    assert_eq!(a[1].cmd, "pokedex pokemon list");
    let s = seeded_actions();
    let cmds: Vec<&str> = s.iter().map(|x| x.cmd.as_str()).collect();
    assert_eq!(cmds, vec!["pokedex pokemon list", "pokedex dex list", "pokedex type list", "pokedex game list"]);
}

#[test]
fn cache_cleared_only_for_own_download() {
    assert!(clears_cache(false, false));
    assert!(!clears_cache(true, false));
    assert!(!clears_cache(false, true));
}
