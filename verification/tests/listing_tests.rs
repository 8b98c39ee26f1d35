use pokedex::commands::{dex, game, home, item, location, pokemon, type_cmd};
use pokedex::db::models::TypeInfo;
use pokedex::discover::discovery;
use pokedex::output::Action;

fn cmds(v: &[Action]) -> Vec<String> {
    v.iter().map(|a| a.cmd.clone()).collect()
}

#[test]
fn pokemon_list_checks_filters() {
    let types = vec![TypeInfo { name: "fire".to_string(), display_name: "Fire".to_string() }];
    assert!(pokemon::check_type_filter(&types, "FIRE").is_none());
    let e = pokemon::check_type_filter(&types, "cosmic").unwrap();
    assert_eq!(e.error.message, "No type named 'cosmic'");
    assert_eq!(e.actions[0].cmd, "pokedex type list");
    assert!(pokemon::check_generation(9).is_none());
    assert_eq!(pokemon::check_generation(10).unwrap().error.message, "Invalid generation '10'. Valid values: 1-9");
    assert!(pokemon::check_generation(0).is_some());
    assert!(pokemon::check_category("Legendary").is_none());
    assert_eq!(
        pokemon::check_category("ultra").unwrap().error.message,
        "Invalid category 'ultra'. Valid values: legendary, mythical, baby"
    );
}

#[test]
fn pokemon_list_command_and_paging() {
    assert_eq!(
        pokemon::list_command(Some("fire"), Some(1), Some("baby")),
        "pokedex pokemon list --type-filter=fire --generation=1 --category=baby"
    );
    let a = pokemon::list_actions("pokedex pokemon list", 50, 50, 60);
    assert_eq!(cmds(&a), vec!["pokedex pokemon show {name}", "pokedex pokemon list --limit=50 --offset=0"]);
}

#[test]
fn unknown_species_suggestions() {
    let e = pokemon::unknown_species("stats", "garchmp", &vec!["garchomp"]);
    assert_eq!(e.error.message, "No pokémon named 'garchmp'");
    assert_eq!(cmds(&e.actions), vec!["pokedex pokemon stats garchomp"]);
    let e = pokemon::unknown_species("show", "qqq", &vec![]);
    assert_eq!(cmds(&e.actions), vec!["pokedex pokemon search qqq", "pokedex pokemon list --limit=20"]);
}

#[test]
fn pokemon_show_actions_use_lowercase_types() {
    let a = pokemon::show_actions("charizard", &vec!["Fire".to_string(), "Flying".to_string()]);
    assert_eq!(a.len(), 9);
    assert_eq!(a[5].cmd, "pokedex collection add --pokemon=charizard --game=<game>");
    assert_eq!(a[6].cmd, "pokedex type matchups fire");
    assert_eq!(a[7].cmd, "pokedex type matchups flying");
    assert_eq!(a[8].rel, "same_type");
    assert_eq!(a[8].cmd, "pokedex type pokemon fire");
}

#[test]
fn search_needs_a_query() {
    assert!(pokemon::check_search_query("  ").is_some());
    assert_eq!(pokemon::check_search_query("").unwrap().error.message, "Search query is required");
    assert!(pokemon::check_search_query("pika").is_none());
    assert_eq!(cmds(&pokemon::search_actions(&vec![])), vec!["pokedex pokemon list --limit=20"]);
    assert_eq!(cmds(&pokemon::search_actions(&vec!["pikachu".to_string()])), vec!["pokedex pokemon show pikachu"]);
}

#[test]
fn forms_actions_skip_unnamed_forms() {
    let a = pokemon::forms_actions("vulpix", &vec![None, Some("alola".to_string())]);
    assert_eq!(
        cmds(&a),
        vec!["pokedex pokemon show vulpix", "pokedex collection add --pokemon=vulpix --form=alola --game=<game>"]
    );
}

#[test]
fn encounter_filters_one_per_game() {
    let slugs = vec!["red".to_string(), "blue".to_string(), "red".to_string()];
    let (a, cmd) = pokemon::encounters_actions("pikachu", None, &slugs);
    assert_eq!(cmd, "pokedex pokemon encounters pikachu");
    assert_eq!(
        cmds(&a),
        vec![
            "pokedex pokemon show pikachu",
            "pokedex collection add --pokemon=pikachu --game=<game>",
            "pokedex pokemon encounters pikachu --game=red",
            "pokedex pokemon encounters pikachu --game=blue"
        ]
    );
    let (a, cmd) = pokemon::encounters_actions("pikachu", Some("red"), &slugs);
    assert_eq!(cmd, "pokedex pokemon encounters pikachu --game=red");
    assert_eq!(a.len(), 2);
    assert_eq!(a[1].cmd, "pokedex collection add --pokemon=pikachu --game=red");
}

#[test]
fn moves_method_check_and_actions() {
    let methods = vec!["level-up".to_string(), "machine".to_string()];
    assert!(pokemon::check_move_method("pikachu", &methods, "Machine").is_none());
    let e = pokemon::check_move_method("pikachu", &methods, "tm").unwrap();
    assert_eq!(e.error.message, "Invalid method 'tm'. Valid values: level-up, machine");
    assert_eq!(e.actions[0].cmd, "pokedex pokemon moves pikachu --method=level-up");
    let (a, cmd) = pokemon::moves_actions("pikachu", Some("red"), None, 50, 0, 10);
    assert_eq!(cmd, "pokedex pokemon moves pikachu --game=red");
    assert_eq!(a.len(), 5);
    assert_eq!(a[2].cmd, "pokedex pokemon moves pikachu --method=machine");
    let (a, _) = pokemon::moves_actions("pikachu", None, Some("egg"), 5, 0, 10);
    assert_eq!(cmds(&a), vec!["pokedex pokemon show pikachu", "pokedex pokemon moves pikachu --method=egg --limit=5 --offset=5"]);
}

#[test]
fn dex_actions() {
    assert_eq!(cmds(&dex::list_actions()), vec!["pokedex dex show {name}", "pokedex dex progress {name}"]);
    let e = dex::unknown_dex("kantoo", "list");
    assert_eq!(e.error.message, "No pokédex named 'kantoo'");
    let a = dex::show_actions("kanto", 50, 100, 151);
    assert_eq!(
        cmds(&a),
        vec![
            "pokedex pokemon show {name}",
            "pokedex dex progress kanto",
            "pokedex dex show kanto --limit=50 --offset=150",
            "pokedex dex show kanto --limit=50 --offset=50"
        ]
    );
    assert!(dex::check_progress_status("kanto", Some("gone")).is_some());
    let (a, cmd) = dex::progress_actions("Kanto", "kanto", true, false, Some("red"), None, 50, 0, 10);
    assert_eq!(cmd, "pokedex dex progress Kanto --missing --game=red");
    assert_eq!(
        cmds(&a),
        vec!["pokedex dex show kanto", "pokedex dex progress kanto --caught", "pokedex pokemon show {name}"]
    );
}

#[test]
fn type_actions() {
    let a = type_cmd::list_actions(&vec!["fire".to_string()]);
    assert_eq!(cmds(&a), vec!["pokedex type matchups fire", "pokedex type pokemon {name}"]);
    let a = type_cmd::matchups_actions("dragon", &vec!["Dragon".to_string()]);
    assert_eq!(cmds(&a), vec!["pokedex type pokemon dragon", "pokedex type list", "pokedex type matchups dragon"]);
    let a = type_cmd::pokemon_of_type_actions("fire", 10, 10, 15);
    assert_eq!(
        cmds(&a),
        vec!["pokedex pokemon show {name}", "pokedex type pokemon fire --limit=10 --offset=0", "pokedex type matchups fire"]
    );
}

#[test]
fn home_actions() {
    assert_eq!(home::status_actions().len(), 3);
    assert_eq!(home::unknown_transferable("zz").actions[0].cmd, "pokedex pokemon search zz");
    assert_eq!(home::transferable_actions("eevee")[1].cmd, "pokedex collection add --pokemon=eevee --game=<game> --in-home");
    assert_eq!(home::missing_dex(None, Some((1, "national".to_string()))), Some((1, "national".to_string())));
    assert_eq!(home::missing_dex(Some((2, "kanto".to_string())), Some((1, "national".to_string()))), Some((2, "kanto".to_string())));
    let (a, cmd) = home::missing_actions("national", 50, 0, 100);
    assert_eq!(cmd, "pokedex home missing --dex=national");
    assert_eq!(a[2].cmd, "pokedex home missing --dex=national --limit=50 --offset=50");
    assert_eq!(home::coverage_actions()[2].cmd, "pokedex dex progress national");
}

#[test]
fn game_actions() {
    let (a, cmd) = game::list_actions(&vec!["sword".to_string()], true);
    assert_eq!(cmds(&a), vec!["pokedex game show sword"]);
    assert_eq!(cmd, "pokedex game list --home-compatible");
    let e = game::unknown_game_show("red", true, &vec![], &vec![]);
    assert_eq!(
        e.error.message,
        "'red' is a known game but not tracked in the games list. Use --game=red with encounter/move commands to filter by this version."
    );
    let all = vec!["sword".to_string(), "shield".to_string()];
    let e = game::unknown_game_show("zzz", false, &vec![], &all);
    assert_eq!(cmds(&e.actions), vec!["pokedex game show sword", "pokedex game show shield"]);
    assert_eq!(game::show_actions("sword")[0].cmd, "pokedex collection list --game=sword");
}

#[test]
fn location_checks_and_actions() {
    assert!(location::check_location(" ").is_some());
    assert!(location::check_location("route-1").is_none());
    assert!(location::no_encounters("x", 0, 0).is_some());
    assert!(location::no_encounters("x", 0, 3).is_none());
    let (a, cmd) = location::encounters_actions("route-1", Some("red"), 50, 0, 10);
    assert_eq!(cmd, "pokedex location encounters route-1 --game=red");
    assert_eq!(cmds(&a), vec!["pokedex pokemon show {pokemon_name}"]);
}

#[test]
fn item_actions_dedup_holders() {
    assert!(item::check_item("").is_some());
    let e = item::unknown_item("potoin", &vec!["potion".to_string()]);
    assert_eq!(e.actions[0].cmd, "pokedex item show potion");
    let (a, cmd) = item::item_actions("light-ball", None, &vec!["pikachu".to_string(), "pikachu".to_string()]);
    assert_eq!(cmds(&a), vec!["pokedex pokemon show pikachu", "pokedex --discover"]);
    assert_eq!(cmd, "pokedex item show light-ball");
}

#[test]
fn discovery_lists_every_resource() {
    let d = discovery();
    let names: Vec<&str> = d.resources.iter().map(|r| r.name.as_str()).collect();
    assert_eq!(names, vec!["pokemon", "type", "dex", "game", "collection", "home", "location", "item", "db"]);
    assert_eq!(d.resources[0].commands.len(), 8);
    let dex: Vec<&str> = d.resources[2].commands.iter().map(|c| c.name.as_str()).collect();
    assert_eq!(dex, vec!["list", "show", "lookup", "progress"]);
    let game: Vec<&str> = d.resources[3].commands.iter().map(|c| c.name.as_str()).collect();
    assert_eq!(game, vec!["list", "show", "encounters", "exclusives"]);
    assert_eq!(d.resources[7].commands[0].usage, "pokedex item show <name-or-id> [--game=<game>]");
    assert_eq!(d.resources[0].commands[0].flags[3].default.as_deref(), Some("50"));
    assert_eq!(d.entry_points[0], "pokedex db seed");
    assert_eq!(d.entry_points.len(), 9);
}
