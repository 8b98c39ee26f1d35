use pokedex::cli::{needs_seed, route, Commands, DbCommands, HomeCommands, PokemonCommands, Route};
use pokedex::commands::collection::{
    add_actions, add_dry_run_actions, add_meta_command, alpha_warning, check_add_choices, check_list_choices,
    check_species_in_game, check_update_choices, combine_warnings, entry_not_found, form_flag, home_warning,
    list_actions, list_command, remove_dry_run_actions, resolve_effective_form, show_actions, skips_encounter_check,
    stats_actions, unknown_add_game, unknown_form, unknown_pokemon, unknown_update_game, update_dry_run_actions,
    updated_actions,
};
use pokedex::commands::{
    invalid_value, is_valid_method, is_valid_status, push_page_actions, unknown_game, valid_statuses, validate_limit,
};
use pokedex::output::{parse_output_format, Action, OutputFormat};

fn cmds(v: &[Action]) -> Vec<String> {
    v.iter().map(|a| a.cmd.clone()).collect()
}

fn rels(v: &[Action]) -> Vec<String> {
    v.iter().map(|a| a.rel.clone()).collect()
}

#[test]
fn collection_only_accepts_valid_statuses() {
    for s in ["caught", "living_dex", "evolved", "traded_away", "transferred"] {
        assert!(is_valid_status(s));
    }
    assert!(!is_valid_status("Caught"));
    assert!(!is_valid_status("owned"));
    assert!(is_valid_method("evolve"));
    assert!(!is_valid_method("steal"));
}

#[test]
fn invalid_status_message_lists_values() {
    let names = valid_statuses();
    assert_eq!(
        invalid_value("status", "owned", &names),
        "Invalid status 'owned'. Valid values: caught, living_dex, evolved, traded_away, transferred"
    );
}

#[test]
fn page_actions_first_middle_last() {
    let mut v = Vec::new();
    push_page_actions(&mut v, "pokedex pokemon list", 50, 0, 120, true);
    assert_eq!(cmds(&v), vec!["pokedex pokemon list --limit=50 --offset=50"]);
    let mut v = Vec::new();
    push_page_actions(&mut v, "pokedex pokemon list", 50, 50, 120, true);
    assert_eq!(rels(&v), vec!["next_page", "prev_page"]);
    assert_eq!(v[0].cmd, "pokedex pokemon list --limit=50 --offset=100");
    assert_eq!(v[1].cmd, "pokedex pokemon list --limit=50 --offset=0");
    let mut v = Vec::new();
    push_page_actions(&mut v, "x", 50, 100, 120, true);
    assert_eq!(cmds(&v), vec!["x --limit=50 --offset=50"]);
}

#[test]
fn prev_page_past_the_end_clamps_to_total() {
    let mut v = Vec::new();
    push_page_actions(&mut v, "x", 10, 500, 25, true);
    assert_eq!(cmds(&v), vec!["x --limit=10 --offset=15"]);
    let mut w = Vec::new();
    push_page_actions(&mut w, "x", 10, 500, 25, false);
    assert_eq!(cmds(&w), vec!["x --limit=10 --offset=490"]);
}

#[test]
fn next_then_prev_returns_to_start() {
    let mut v = Vec::new();
    push_page_actions(&mut v, "x", 20, 40, 100, true);
    assert_eq!(v[0].cmd, "x --limit=20 --offset=60");
    let mut w = Vec::new();
    push_page_actions(&mut w, "x", 20, 60, 100, true);
    assert_eq!(w[1].cmd, "x --limit=20 --offset=40");
}

#[test]
fn limit_is_at_least_one() {
    assert_eq!(validate_limit(0), 1);
    assert_eq!(validate_limit(7), 7);
}

#[test]
fn unknown_game_suggests_five_or_list() {
    let e = unknown_game("swrd", &vec!["sword", "shield", "scarlet", "silver", "sun", "soulsilver"]);
    assert_eq!(e.error.code, "NOT_FOUND");
    assert_eq!(e.error.message, "No game named 'swrd'");
    assert_eq!(e.actions.len(), 5);
    assert_eq!(e.actions[0].cmd, "... --game=sword");
    let e = unknown_game("zzz", &vec![]);
    assert_eq!(cmds(&e.actions), vec!["pokedex game list"]);
}

#[test]
fn unknown_pokemon_in_add_suggests_close_names() {
    let e = unknown_pokemon("pikchu", "sword", Some("alola"), &vec!["pikachu", "pichu"]);
    assert_eq!(e.error.message, "No pokémon named 'pikchu'");
    assert_eq!(
        cmds(&e.actions),
        vec![
            "pokedex collection add --pokemon=pikachu --game=sword --form=alola",
            "pokedex collection add --pokemon=pichu --game=sword --form=alola"
        ]
    );
    let e = unknown_pokemon("zzz", "sword", None, &vec![]);
    assert_eq!(cmds(&e.actions), vec!["pokedex pokemon search zzz", "pokedex pokemon list --limit=20"]);
}

#[test]
fn unknown_game_in_add_keeps_five() {
    let e = unknown_add_game("pikachu", "sw", None, &vec!["sword", "swsh", "a", "b", "c", "d"]);
    assert_eq!(e.actions.len(), 5);
    assert_eq!(e.actions[0].cmd, "pokedex collection add --pokemon=pikachu --game=sword");
    let e = unknown_add_game("pikachu", "zz", None, &vec![]);
    assert_eq!(cmds(&e.actions), vec!["pokedex game list"]);
}

#[test]
fn add_rejects_bad_status_then_bad_method() {
    let e = check_add_choices("pikachu", "sword", "owned", Some("steal")).unwrap();
    assert_eq!(e.error.code, "INVALID_PARAMETER");
    assert!(e.error.message.starts_with("Invalid status 'owned'"));
    assert_eq!(e.actions.len(), 5);
    assert_eq!(e.actions[0].cmd, "pokedex collection add --pokemon=pikachu --game=sword --status=caught");
    let e = check_add_choices("pikachu", "sword", "caught", Some("steal")).unwrap();
    assert!(e.error.message.starts_with("Invalid method 'steal'"));
    assert_eq!(e.actions.len(), 8);
    assert_eq!(e.actions[7].cmd, "pokedex collection add --pokemon=pikachu --game=sword --method=evolve");
    assert!(check_add_choices("pikachu", "sword", "caught", None).is_none());
}

#[test]
fn effective_form_from_typed_name() {
    assert_eq!(resolve_effective_form("Vulpix-Alola", "vulpix", None), Some("alola".to_string()));
    assert_eq!(resolve_effective_form("vulpix--alola", "vulpix", None), Some("alola".to_string()));
    assert_eq!(resolve_effective_form("vulpix", "Vulpix", None), None);
    assert_eq!(resolve_effective_form("vulpix-", "vulpix", None), None);
    assert_eq!(resolve_effective_form("37", "vulpix", None), None);
    assert_eq!(resolve_effective_form("vulpix-alola", "vulpix", Some("galar")), Some("galar".to_string()));
}

#[test]
fn unknown_form_lists_forms() {
    let e = unknown_form("vulpix", "galar", &vec!["alola".to_string()]);
    assert_eq!(e.error.message, "No form 'galar' for vulpix. Available forms: alola");
    assert_eq!(cmds(&e.actions), vec!["pokedex pokemon forms vulpix"]);
    let e = unknown_form("ditto", "x", &vec![]);
    assert_eq!(e.error.message, "No form 'x' for ditto. ditto has no alternate forms");
}

#[test]
fn add_warnings_combine_with_spaces() {
    assert_eq!(
        alpha_warning(true, "sword"),
        Some("Alpha Pokémon only exist in Legends: Arceus and Legends: Z-A, not in sword. The --alpha flag will be saved but may be incorrect.".to_string())
    );
    assert_eq!(alpha_warning(true, "legends-arceus"), None);
    assert_eq!(alpha_warning(false, "sword"), None);
    assert_eq!(
        home_warning(true, Some(false), "red"),
        Some("red does not connect to Pokémon HOME. The --in-home flag may not be accurate.".to_string())
    );
    assert_eq!(home_warning(true, None, "red").is_some(), true);
    assert_eq!(home_warning(true, Some(true), "sword"), None);
    assert_eq!(
        combine_warnings(Some("a".to_string()), None, Some("c".to_string())),
        Some("a c".to_string())
    );
    assert_eq!(combine_warnings(None, None, None), None);
    assert_eq!(
        combine_warnings(Some("a".to_string()), Some("b".to_string()), Some("c".to_string())),
        Some("a b c".to_string())
    );
}

#[test]
fn encounter_check_skipped_for_non_wild_methods() {
    for m in ["evolve", "breed", "trade", "transfer", "gift"] {
        assert!(skips_encounter_check(Some(m)));
    }
    assert!(!skips_encounter_check(Some("catch")));
    assert!(!skips_encounter_check(None));
}

#[test]
fn species_in_game_warning_cases() {
    assert_eq!(check_species_in_game(None, Some(false), Some("a"), Some("b")), None);
    assert_eq!(check_species_in_game(Some(25), Some(true), Some("a"), Some("b")), None);
    assert_eq!(check_species_in_game(Some(25), None, Some("a"), Some("b")), None);
    assert_eq!(
        check_species_in_game(Some(25), Some(false), Some("pikachu"), None),
        Some("No encounter data found for pikachu in unknown. The Pokémon may not be obtainable in this game.".to_string())
    );
}

#[test]
fn dry_run_add_confirms_full_command() {
    let a = add_dry_run_actions("pikachu", "sword", Some("gmax"), true, true, false, "living_dex", Some("catch"), Some("Sparky"), None);
    assert_eq!(a.len(), 1);
    assert_eq!(a[0].rel, "confirm");
    assert_eq!(
        a[0].cmd,
        "pokedex collection add --pokemon=pikachu --game=sword --form=gmax --shiny --in-home --status=living_dex --method=catch --nickname=Sparky"
    );
    assert_eq!(a[0].description.as_deref(), Some("Run without --dry-run to save"));
    let b = add_dry_run_actions("pikachu", "sword", None, false, false, true, "caught", None, None, None);
    assert_eq!(b[0].cmd, "pokedex collection add --pokemon=pikachu --game=sword --alpha");
    let c = add_dry_run_actions("charmander", "scarlet", None, false, false, false, "evolved", None, None, Some("evolved into charmeleon"));
    assert_eq!(
        c[0].cmd,
        "pokedex collection add --pokemon=charmander --game=scarlet --status=evolved --notes=evolved into charmeleon"
    );
}

#[test]
fn add_result_actions_and_meta() {
    let a = add_actions(42, "vulpix", Some("alola"));
    assert_eq!(
        cmds(&a),
        vec![
            "pokedex collection show 42",
            "pokedex collection list",
            "pokedex collection stats",
            "pokedex pokemon show vulpix-alola"
        ]
    );
    assert_eq!(add_meta_command("Vulpix-Alola", "sword", Some("alola")), "pokedex collection add --pokemon=Vulpix-Alola --game=sword --form=alola");
    assert_eq!(form_flag(None), "");
}

#[test]
fn remove_and_update_commands() {
    let r = remove_dry_run_actions(7);
    assert_eq!(r[0].cmd, "pokedex collection remove 7");
    assert_eq!(r[0].description.as_deref(), Some("Run without --dry-run to delete"));
    let e = entry_not_found(-3);
    assert_eq!(e.error.message, "No collection entry with id -3");
    let u = update_dry_run_actions(7, Some("evolved"), Some(true), Some(false), Some("Bob"), Some("sword"), Some("trade"));
    assert_eq!(
        u[0].cmd,
        "pokedex collection update 7 --status=evolved --in-home=true --shiny=false --nickname=Bob --game=sword --method=trade"
    );
    assert_eq!(u[1].cmd, "pokedex collection show 7");
    assert_eq!(cmds(&updated_actions(7)), vec!["pokedex collection show 7", "pokedex collection list"]);
    let e = check_update_choices(7, Some("bad"), None).unwrap();
    assert_eq!(e.actions[1].cmd, "pokedex collection update 7 --status=living_dex");
    assert!(check_update_choices(7, None, Some("raid")).is_none());
    let g = unknown_update_game(7, "zz", &vec!["red", "blue"]);
    assert_eq!(cmds(&g.actions), vec!["pokedex collection update 7 --game=red", "pokedex collection update 7 --game=blue"]);
}

#[test]
fn list_command_and_actions() {
    let c = list_command(Some("sword"), Some("pikachu"), true, true, Some("caught"), "dex");
    assert_eq!(c, "pokedex collection list --game=sword --pokemon=pikachu --shiny-only --in-home --status=caught --sort=dex");
    assert_eq!(list_command(None, None, false, false, None, "id"), "pokedex collection list");
    let a = list_actions("pokedex collection list", 10, 0, 30);
    assert_eq!(rels(&a), vec!["show", "next_page", "stats", "add"]);
    assert!(check_list_choices(None, "name").is_some());
    assert_eq!(check_list_choices(None, "name").unwrap().error.message, "Invalid sort 'name'. Valid values: id, dex");
    assert!(check_list_choices(Some("caught"), "dex").is_none());
}

#[test]
fn show_and_stats_actions() {
    let a = show_actions(3, "charizard", Some("mega-x"));
    assert_eq!(
        cmds(&a),
        vec![
            "pokedex collection update 3 --status=<status>",
            "pokedex collection remove 3",
            "pokedex pokemon show charizard-mega-x",
            "pokedex collection list"
        ]
    );
    let (acts, cmd) = stats_actions(Some("sword"));
    assert_eq!(acts.len(), 5);
    assert_eq!(acts[4].cmd, "pokedex collection list --game=sword");
    assert_eq!(cmd, "pokedex collection stats --game=sword");
    let (acts, cmd) = stats_actions(None);
    assert_eq!(acts.len(), 4);
    assert_eq!(cmd, "pokedex collection stats");
}

#[test]
fn output_format_parses_case_insensitively() {
    assert_eq!(parse_output_format("JSON"), Ok(OutputFormat::Json));
    assert_eq!(parse_output_format("table"), Ok(OutputFormat::Table));
    assert_eq!(parse_output_format("xml"), Err("Unknown format: xml. Expected 'json' or 'table'".to_string()));
    let f: OutputFormat = "Table".parse().unwrap();
    assert_eq!(f, OutputFormat::Table);
    assert_eq!(OutputFormat::default(), OutputFormat::Json);
}

#[test]
fn routing_and_seed_requirement() {
    assert_eq!(route(true, true), Route::Discover);
    assert_eq!(route(false, false), Route::OpenThenDiscover);
    assert_eq!(route(false, true), Route::Run);
    let p = Commands::Pokemon { command: PokemonCommands::Show { pokemon: "pikachu".to_string() } };
    assert!(needs_seed(&p));
    let d = Commands::Db { command: DbCommands::Seed { from: None, refresh: false, keep_cache: false } };
    assert!(!needs_seed(&d));
    let h = Commands::Home { command: HomeCommands::Status };
    assert!(!needs_seed(&h));
}

#[test]
fn dispatch_none_command_prints_discovery() {
    assert_eq!(route(false, false), Route::OpenThenDiscover);
    let r = pokedex::discover::discovery_response();
    assert_eq!(r.data.name, "pokedex");
    assert_eq!(r.actions[0].cmd, "pokedex db seed");
    assert_eq!(r.meta.command, "pokedex --discover");
}

#[test]
fn dispatch_db_seed_on_seeded_db() {
    let d = Commands::Db { command: DbCommands::Seed { from: Some("fixtures".to_string()), refresh: true, keep_cache: true } };
    assert!(!needs_seed(&d));
    assert_eq!(
        pokedex::commands::db_cmd::seed_decision(true, true),
        pokedex::commands::db_cmd::SeedAction::Reseed
    );
}
