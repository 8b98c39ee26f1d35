//! The command tree printed for `--discover`: every resource, its
//! commands with their usage and flags, and the entry points.
use vstd::prelude::*;
use crate::output::{act, views_of, Action, ActionView, Meta, Response};
use crate::text::owned;

verus! {

/// A flag of a command.
#[derive(Debug, Clone)]
pub struct FlagInfo {
    pub flag: String,
    pub description: String,
    pub default: Option<String>,
}

/// A command of a resource.
#[derive(Debug, Clone)]
pub struct CommandInfo {
    pub name: String,
    pub usage: String,
    pub description: String,
    pub flags: Vec<FlagInfo>,
}

/// A resource and its commands.
#[derive(Debug, Clone)]
pub struct Resource {
    pub name: String,
    pub description: String,
    pub commands: Vec<CommandInfo>,
}

/// The whole command tree.
#[derive(Debug, Clone)]
pub struct DiscoverOutput {
    pub name: String,
    pub description: String,
    pub resources: Vec<Resource>,
    pub entry_points: Vec<String>,
}

impl View for FlagInfo {
    /// The flag, its description and its default.
    type V = (Seq<char>, Seq<char>, Option<Seq<char>>);

    open spec fn view(&self) -> Self::V {
        (self.flag@, self.description@, match self.default { Some(d) => Some(d@), None => None })
    }
}

impl View for CommandInfo {
    /// The name, usage, description and flags.
    type V = (Seq<char>, Seq<char>, Seq<char>, Seq<(Seq<char>, Seq<char>, Option<Seq<char>>)>);

    open spec fn view(&self) -> Self::V {
        (self.name@, self.usage@, self.description@, self.flags@.map_values(|f: FlagInfo| f@))
    }
}

impl View for Resource {
    /// The name, description and commands.
    type V = (Seq<char>, Seq<char>, Seq<(Seq<char>, Seq<char>, Seq<char>, Seq<(Seq<char>, Seq<char>, Option<Seq<char>>)>)>);

    open spec fn view(&self) -> Self::V {
        (self.name@, self.description@, self.commands@.map_values(|c: CommandInfo| c@))
    }
}

fn flag(f: &str, description: &str, default: Option<&str>) -> (r: FlagInfo)
    ensures
        r@ == (f@, description@, match default { Some(d) => Some(d@), None => None }),
{
    FlagInfo {
        flag: owned(f),
        description: owned(description),
        default: match default {
            Some(d) => Some(owned(d)),
            None => None,
        },
    }
}

fn command(name: &str, usage: &str, description: &str, flags: Vec<FlagInfo>) -> (r: CommandInfo)
    ensures
        r@ == (name@, usage@, description@, flags@.map_values(|f: FlagInfo| f@)),
{
    CommandInfo { name: owned(name), usage: owned(usage), description: owned(description), flags }
}

fn resource(name: &str, description: &str, commands: Vec<CommandInfo>) -> (r: Resource)
    ensures
        r@ == (name@, description@, commands@.map_values(|c: CommandInfo| c@)),
        r.commands == commands,
{
    Resource { name: owned(name), description: owned(description), commands }
}

/// The resources, in the order they are listed.
pub open spec fn resource_names() -> Seq<Seq<char>> {
    seq!["pokemon"@, "type"@, "dex"@, "game"@, "collection"@, "home"@, "location"@, "item"@, "db"@]
}

/// The commands of each resource, in the order they are listed.
pub open spec fn command_names(resource: int) -> Seq<Seq<char>> {
    if resource == 0 {
        seq!["list"@, "show"@, "search"@, "evolutions"@, "forms"@, "encounters"@, "moves"@, "stats"@]
    } else if resource == 1 {
        seq!["list"@, "matchups"@, "pokemon"@]
    } else if resource == 2 {
        seq!["list"@, "show"@, "lookup"@, "progress"@]
    } else if resource == 3 {
        seq!["list"@, "show"@, "encounters"@, "exclusives"@]
    } else if resource == 4 {
        seq!["add"@, "remove"@, "update"@, "list"@, "show"@, "stats"@]
    } else if resource == 5 {
        seq!["status"@, "transferable"@, "missing"@, "coverage"@]
    } else if resource == 6 {
        seq!["encounters"@]
    } else if resource == 7 {
        seq!["show"@]
    } else if resource == 8 {
        seq!["seed"@]
    } else {
        seq![]
    }
}

/// Every resource with its description and, per command, its usage,
/// description and flags (flag, description, default).
pub open spec fn resource_tree(resource: int) -> <Resource as View>::V {
    if resource == 0 {
        ("pokemon"@, "Query Pokémon species data, stats, moves, encounters, and evolutions"@, seq![
            ("list"@, "pokedex pokemon list [--type-filter=<type>] [--generation=<1-9>] [--category=<cat>] [--limit=N] [--offset=N]"@, "List Pokémon with optional filters"@, seq![("--type-filter"@, "Filter by type (fire, water, etc.)"@, None), ("--generation"@, "Filter by generation (1-9)"@, None), ("--category"@, "Filter by category (legendary, mythical, baby)"@, None), ("--limit"@, "Results per page"@, Some("50"@)), ("--offset"@, "Skip N results"@, Some("0"@))]),
            ("show"@, "pokedex pokemon show <name-or-id>"@, "Show detailed info for a Pokémon"@, seq![]),
            ("search"@, "pokedex pokemon search <query> [--limit=N]"@, "Fuzzy search for a Pokémon by name"@, seq![]),
            ("evolutions"@, "pokedex pokemon evolutions <name-or-id>"@, "Show evolution chain"@, seq![]),
            ("forms"@, "pokedex pokemon forms <name-or-id>"@, "List all forms of a Pokémon"@, seq![]),
            ("encounters"@, "pokedex pokemon encounters <name-or-id> [--game=<game>]"@, "Show where a Pokémon can be encountered"@, seq![("--game"@, "Filter by game"@, None)]),
            ("moves"@, "pokedex pokemon moves <name-or-id> [--game=<game>] [--method=<method>]"@, "Show moves a Pokémon can learn"@, seq![("--game"@, "Filter by game"@, None), ("--method"@, "Filter by learn method: level-up, machine, egg, tutor"@, None)]),
            ("stats"@, "pokedex pokemon stats <name-or-id>"@, "Show base stats"@, seq![]),
        ])
    } else if resource == 1 {
        ("type"@, "Query type effectiveness and matchups"@, seq![
            ("list"@, "pokedex type list"@, "List all 18 types"@, seq![]),
            ("matchups"@, "pokedex type matchups <type>"@, "Show offensive and defensive type matchups"@, seq![]),
            ("pokemon"@, "pokedex type pokemon <type> [--limit=N] [--offset=N]"@, "List Pokémon of a given type"@, seq![]),
        ])
    } else if resource == 2 {
        ("dex"@, "Query and track Pokédex completion"@, seq![
            ("list"@, "pokedex dex list"@, "List all available Pokédexes"@, seq![]),
            ("show"@, "pokedex dex show <dex-name> [--limit=N] [--offset=N]"@, "Show species in a Pokédex"@, seq![]),
            ("lookup"@, "pokedex dex lookup <dex-name> <number>"@, "Look up a Pokémon by its regional dex number"@, seq![]),
            ("progress"@, "pokedex dex progress <dex-name> [--missing] [--caught] [--game=<game>] [--status=<status>] [--limit=N] [--offset=N]"@, "Show your completion progress for a Pokédex"@, seq![("--missing"@, "Show only missing Pokémon"@, None), ("--caught"@, "Show only caught Pokémon"@, None), ("--game"@, "Filter by game"@, None), ("--status"@, "Only count entries with this status (e.g. living_dex)"@, None)]),
        ])
    } else if resource == 3 {
        ("game"@, "Query game information and HOME compatibility"@, seq![
            ("list"@, "pokedex game list [--home-compatible]"@, "List supported games"@, seq![]),
            ("show"@, "pokedex game show <game>"@, "Show details for a game"@, seq![]),
            ("encounters"@, "pokedex game encounters <game> [--limit=N] [--offset=N]"@, "List all Pokémon encounterable in a game"@, seq![("--limit"@, "Results per page"@, Some("50"@)), ("--offset"@, "Skip N results"@, Some("0"@))]),
            ("exclusives"@, "pokedex game exclusives <game> [--limit=N] [--offset=N]"@, "Show version-exclusive Pokémon for a game"@, seq![("--limit"@, "Results per page"@, Some("50"@)), ("--offset"@, "Skip N results"@, Some("0"@))]),
        ])
    } else if resource == 4 {
        ("collection"@, "Manage your Pokémon collection"@, seq![
            ("add"@, "pokedex collection add --pokemon=<name> --game=<game> [--form=<form>] [--shiny] [--in-home] [--alpha] [--status=<status>] [--method=<method>] [--nickname=<name>] [--notes=<text>] [--dry-run]"@, "Add a Pokémon to your collection"@, seq![("--pokemon"@, "Pokémon name (required)"@, None), ("--game"@, "Game caught in (required)"@, None), ("--status"@, "caught, living_dex, evolved, traded_away, transferred"@, Some("caught"@)), ("--method"@, "catch, breed, trade, transfer, gift, raid, research"@, None), ("--dry-run"@, "Preview without saving"@, None)]),
            ("remove"@, "pokedex collection remove <id> [--dry-run]"@, "Remove a collection entry by ID"@, seq![]),
            ("update"@, "pokedex collection update <id> [--status=<s>] [--in-home=<bool>] [--shiny=<bool>] [--nickname=<n>] [--notes=<n>] [--game=<g>] [--method=<m>]"@, "Update a collection entry"@, seq![]),
            ("list"@, "pokedex collection list [--game=<g>] [--pokemon=<p>] [--shiny-only] [--in-home] [--status=<s>] [--limit=N] [--offset=N] [--sort=<id|dex>]"@, "List your collection entries"@, seq![]),
            ("show"@, "pokedex collection show <id>"@, "Show a collection entry by ID"@, seq![]),
            ("stats"@, "pokedex collection stats [--game=<g>]"@, "Show collection statistics"@, seq![]),
        ])
    } else if resource == 5 {
        ("home"@, "Pokémon HOME status and transfer info"@, seq![
            ("status"@, "pokedex home status"@, "Show what's currently in HOME"@, seq![]),
            ("transferable"@, "pokedex home transferable <pokemon>"@, "Show which games a Pokémon can transfer to/from"@, seq![]),
            ("missing"@, "pokedex home missing [--dex=home|national] [--limit=N] [--offset=N]"@, "Show species missing from HOME"@, seq![]),
            ("coverage"@, "pokedex home coverage"@, "Show HOME dex completion percentage"@, seq![]),
        ])
    } else if resource == 6 {
        ("location"@, "Query location encounter data"@, seq![
            ("encounters"@, "pokedex location encounters <location> [--game=<game>] [--limit=N] [--offset=N]"@, "Show what Pokémon can be found at a location"@, seq![("--game"@, "Filter by game"@, None), ("--limit"@, "Results per page"@, Some("50"@)), ("--offset"@, "Skip N results"@, Some("0"@))]),
        ])
    } else if resource == 7 {
        ("item"@, "Query item data"@, seq![
            ("show"@, "pokedex item show <name-or-id> [--game=<game>]"@, "Show detailed info for an item"@, seq![("--game"@, "Filter held-by data to a specific game"@, None)]),
        ])
    } else if resource == 8 {
        ("db"@, "Database management"@, seq![
            ("seed"@, "pokedex db seed [--from=<path>] [--refresh] [--keep-cache]"@, "Seed the database with Pokémon data (auto-downloads from PokeAPI)"@, seq![("--from"@, "Path to local PokeAPI CSV directory"@, None), ("--refresh"@, "Re-download and reseed (preserves collection)"@, None), ("--keep-cache"@, "Keep downloaded CSVs after seeding"@, None)]),
        ])
    } else {
        (seq![], seq![], seq![])
    }
}

/// The whole tree, resource by resource.
pub open spec fn command_tree() -> Seq<<Resource as View>::V> {
    Seq::new(9, |i: int| resource_tree(i))
}

/// The commands to start from.
pub open spec fn entry_points() -> Seq<Seq<char>> {
    seq!["pokedex db seed"@, "pokedex pokemon list"@, "pokedex pokemon search <query>"@, "pokedex collection list"@, "pokedex dex list"@, "pokedex type list"@, "pokedex game list"@, "pokedex home status"@, "pokedex location encounters <location>"@]
}

/// The names of the commands of a resource.
pub open spec fn names_of(cs: Seq<CommandInfo>) -> Seq<Seq<char>> {
    cs.map_values(|c: CommandInfo| c.name@)
}

fn resource_0() -> (r: Resource)
    ensures
        r@ == resource_tree(0),
        names_of(r.commands@) == command_names(0),
{
    let commands = vec![
        command("list", "pokedex pokemon list [--type-filter=<type>] [--generation=<1-9>] [--category=<cat>] [--limit=N] [--offset=N]", "List Pokémon with optional filters", vec![flag("--type-filter", "Filter by type (fire, water, etc.)", None), flag("--generation", "Filter by generation (1-9)", None), flag("--category", "Filter by category (legendary, mythical, baby)", None), flag("--limit", "Results per page", Some("50")), flag("--offset", "Skip N results", Some("0"))]),
        command("show", "pokedex pokemon show <name-or-id>", "Show detailed info for a Pokémon", vec![]),
        command("search", "pokedex pokemon search <query> [--limit=N]", "Fuzzy search for a Pokémon by name", vec![]),
        command("evolutions", "pokedex pokemon evolutions <name-or-id>", "Show evolution chain", vec![]),
        command("forms", "pokedex pokemon forms <name-or-id>", "List all forms of a Pokémon", vec![]),
        command("encounters", "pokedex pokemon encounters <name-or-id> [--game=<game>]", "Show where a Pokémon can be encountered", vec![flag("--game", "Filter by game", None)]),
        command("moves", "pokedex pokemon moves <name-or-id> [--game=<game>] [--method=<method>]", "Show moves a Pokémon can learn", vec![flag("--game", "Filter by game", None), flag("--method", "Filter by learn method: level-up, machine, egg, tutor", None)]),
        command("stats", "pokedex pokemon stats <name-or-id>", "Show base stats", vec![]),
    ];
    assert(commands@.map_values(|c: CommandInfo| c@) =~~= resource_tree(0).2);
    assert(names_of(commands@) =~= command_names(0));
    resource("pokemon", "Query Pokémon species data, stats, moves, encounters, and evolutions", commands)
}

fn resource_1() -> (r: Resource)
    ensures
        r@ == resource_tree(1),
        names_of(r.commands@) == command_names(1),
{
    let commands = vec![
        command("list", "pokedex type list", "List all 18 types", vec![]),
        command("matchups", "pokedex type matchups <type>", "Show offensive and defensive type matchups", vec![]),
        command("pokemon", "pokedex type pokemon <type> [--limit=N] [--offset=N]", "List Pokémon of a given type", vec![]),
    ];
    assert(commands@.map_values(|c: CommandInfo| c@) =~~= resource_tree(1).2);
    assert(names_of(commands@) =~= command_names(1));
    resource("type", "Query type effectiveness and matchups", commands)
}

fn resource_2() -> (r: Resource)
    ensures
        r@ == resource_tree(2),
        names_of(r.commands@) == command_names(2),
{
    let commands = vec![
        command("list", "pokedex dex list", "List all available Pokédexes", vec![]),
        command("show", "pokedex dex show <dex-name> [--limit=N] [--offset=N]", "Show species in a Pokédex", vec![]),
        command("lookup", "pokedex dex lookup <dex-name> <number>", "Look up a Pokémon by its regional dex number", vec![]),
        command("progress", "pokedex dex progress <dex-name> [--missing] [--caught] [--game=<game>] [--status=<status>] [--limit=N] [--offset=N]", "Show your completion progress for a Pokédex", vec![flag("--missing", "Show only missing Pokémon", None), flag("--caught", "Show only caught Pokémon", None), flag("--game", "Filter by game", None), flag("--status", "Only count entries with this status (e.g. living_dex)", None)]),
    ];
    assert(commands@.map_values(|c: CommandInfo| c@) =~~= resource_tree(2).2);
    assert(names_of(commands@) =~= command_names(2));
    resource("dex", "Query and track Pokédex completion", commands)
}

fn resource_3() -> (r: Resource)
    ensures
        r@ == resource_tree(3),
        names_of(r.commands@) == command_names(3),
{
    let commands = vec![
        command("list", "pokedex game list [--home-compatible]", "List supported games", vec![]),
        command("show", "pokedex game show <game>", "Show details for a game", vec![]),
        command("encounters", "pokedex game encounters <game> [--limit=N] [--offset=N]", "List all Pokémon encounterable in a game", vec![flag("--limit", "Results per page", Some("50")), flag("--offset", "Skip N results", Some("0"))]),
        command("exclusives", "pokedex game exclusives <game> [--limit=N] [--offset=N]", "Show version-exclusive Pokémon for a game", vec![flag("--limit", "Results per page", Some("50")), flag("--offset", "Skip N results", Some("0"))]),
    ];
    assert(commands@.map_values(|c: CommandInfo| c@) =~~= resource_tree(3).2);
    assert(names_of(commands@) =~= command_names(3));
    resource("game", "Query game information and HOME compatibility", commands)
}

fn resource_4() -> (r: Resource)
    ensures
        r@ == resource_tree(4),
        names_of(r.commands@) == command_names(4),
{
    let commands = vec![
        command("add", "pokedex collection add --pokemon=<name> --game=<game> [--form=<form>] [--shiny] [--in-home] [--alpha] [--status=<status>] [--method=<method>] [--nickname=<name>] [--notes=<text>] [--dry-run]", "Add a Pokémon to your collection", vec![flag("--pokemon", "Pokémon name (required)", None), flag("--game", "Game caught in (required)", None), flag("--status", "caught, living_dex, evolved, traded_away, transferred", Some("caught")), flag("--method", "catch, breed, trade, transfer, gift, raid, research", None), flag("--dry-run", "Preview without saving", None)]),
        command("remove", "pokedex collection remove <id> [--dry-run]", "Remove a collection entry by ID", vec![]),
        command("update", "pokedex collection update <id> [--status=<s>] [--in-home=<bool>] [--shiny=<bool>] [--nickname=<n>] [--notes=<n>] [--game=<g>] [--method=<m>]", "Update a collection entry", vec![]),
        command("list", "pokedex collection list [--game=<g>] [--pokemon=<p>] [--shiny-only] [--in-home] [--status=<s>] [--limit=N] [--offset=N] [--sort=<id|dex>]", "List your collection entries", vec![]),
        command("show", "pokedex collection show <id>", "Show a collection entry by ID", vec![]),
        command("stats", "pokedex collection stats [--game=<g>]", "Show collection statistics", vec![]),
    ];
    assert(commands@.map_values(|c: CommandInfo| c@) =~~= resource_tree(4).2);
    assert(names_of(commands@) =~= command_names(4));
    resource("collection", "Manage your Pokémon collection", commands)
}

fn resource_5() -> (r: Resource)
    ensures
        r@ == resource_tree(5),
        names_of(r.commands@) == command_names(5),
{
    let commands = vec![
        command("status", "pokedex home status", "Show what's currently in HOME", vec![]),
        command("transferable", "pokedex home transferable <pokemon>", "Show which games a Pokémon can transfer to/from", vec![]),
        command("missing", "pokedex home missing [--dex=home|national] [--limit=N] [--offset=N]", "Show species missing from HOME", vec![]),
        command("coverage", "pokedex home coverage", "Show HOME dex completion percentage", vec![]),
    ];
    assert(commands@.map_values(|c: CommandInfo| c@) =~~= resource_tree(5).2);
    assert(names_of(commands@) =~= command_names(5));
    resource("home", "Pokémon HOME status and transfer info", commands)
}

fn resource_6() -> (r: Resource)
    ensures
        r@ == resource_tree(6),
        names_of(r.commands@) == command_names(6),
{
    let commands = vec![
        command("encounters", "pokedex location encounters <location> [--game=<game>] [--limit=N] [--offset=N]", "Show what Pokémon can be found at a location", vec![flag("--game", "Filter by game", None), flag("--limit", "Results per page", Some("50")), flag("--offset", "Skip N results", Some("0"))]),
    ];
    assert(commands@.map_values(|c: CommandInfo| c@) =~~= resource_tree(6).2);
    assert(names_of(commands@) =~= command_names(6));
    resource("location", "Query location encounter data", commands)
}

fn resource_7() -> (r: Resource)
    ensures
        r@ == resource_tree(7),
        names_of(r.commands@) == command_names(7),
{
    let commands = vec![
        command("show", "pokedex item show <name-or-id> [--game=<game>]", "Show detailed info for an item", vec![flag("--game", "Filter held-by data to a specific game", None)]),
    ];
    assert(commands@.map_values(|c: CommandInfo| c@) =~~= resource_tree(7).2);
    assert(names_of(commands@) =~= command_names(7));
    resource("item", "Query item data", commands)
}

fn resource_8() -> (r: Resource)
    ensures
        r@ == resource_tree(8),
        names_of(r.commands@) == command_names(8),
{
    let commands = vec![
        command("seed", "pokedex db seed [--from=<path>] [--refresh] [--keep-cache]", "Seed the database with Pokémon data (auto-downloads from PokeAPI)", vec![flag("--from", "Path to local PokeAPI CSV directory", None), flag("--refresh", "Re-download and reseed (preserves collection)", None), flag("--keep-cache", "Keep downloaded CSVs after seeding", None)]),
    ];
    assert(commands@.map_values(|c: CommandInfo| c@) =~~= resource_tree(8).2);
    assert(names_of(commands@) =~= command_names(8));
    resource("db", "Database management", commands)
}

/// The command tree.
pub fn discovery() -> (r: DiscoverOutput)
    ensures
        r.name@ == "pokedex"@,
        r.resources@.map_values(|x: Resource| x@) == command_tree(),
        r.resources@.map_values(|x: Resource| x.name@) == resource_names(),
        forall|i: int| 0 <= i < r.resources@.len() ==> names_of(#[trigger] r.resources@[i].commands@) == command_names(i),
        r.entry_points@.map_values(|e: String| e@) == entry_points(),
{
    let resources = vec![resource_0(), resource_1(), resource_2(), resource_3(), resource_4(), resource_5(), resource_6(), resource_7(), resource_8()];
    assert(resources@.map_values(|x: Resource| x@) =~= command_tree());
    assert(resources@.map_values(|x: Resource| x.name@) =~= resource_names());
    let eps = vec![owned("pokedex db seed"), owned("pokedex pokemon list"), owned("pokedex pokemon search <query>"), owned("pokedex collection list"), owned("pokedex dex list"), owned("pokedex type list"), owned("pokedex game list"), owned("pokedex home status"), owned("pokedex location encounters <location>")];
    assert(eps@.map_values(|e: String| e@) =~= entry_points());
    DiscoverOutput {
        name: owned("pokedex"),
        description: owned("Pokédex CLI — track your Pokémon collection with HATEOAS-style navigation"),
        resources,
        entry_points: eps,
    }
}

/// The response of `--discover`: the command tree, with seeding the
/// database as the next action.
pub fn discovery_response() -> (r: Response<DiscoverOutput>)
    ensures
        r.data.name@ == "pokedex"@,
        r.data.resources@.map_values(|x: Resource| x@) == command_tree(),
        r.data.resources@.map_values(|x: Resource| x.name@) == resource_names(),
        r.data.entry_points@.map_values(|e: String| e@) == entry_points(),
        views_of(r.actions@) == seq![act("seed_database"@, "pokedex db seed"@)],
        r.meta.command@ == "pokedex --discover"@,
        r.meta.total is None,
{
    let v = vec![Action::new("seed_database", "pokedex db seed")];
    assert(views_of(v@) =~= seq![act("seed_database"@, "pokedex db seed"@)]);
    Response::new(discovery(), v, Meta::simple("pokedex --discover"))
}

} // verus!
