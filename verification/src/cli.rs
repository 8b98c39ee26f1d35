//! The command tree of the program, as plain values; parsing the command
//! line into them is the caller's business.
use vstd::prelude::*;

verus! {

/// A parsed command line.
#[derive(Debug, Clone)]
pub struct Cli {
    pub command: Option<Commands>,
    pub discover: bool,
    pub format: String,
}

/// The top-level commands.
#[derive(Debug, Clone)]
pub enum Commands {
    Pokemon { command: PokemonCommands },
    Type { command: TypeCommands },
    Dex { command: DexCommands },
    Game { command: GameCommands },
    Collection { command: CollectionCommands },
    Home { command: HomeCommands },
    Location { command: LocationCommands },
    Item { command: ItemCommands },
    Db { command: DbCommands },
}

/// `item` subcommands.
#[derive(Debug, Clone)]
pub enum ItemCommands {
    Show { item: String, game: Option<String> },
}

/// `location` subcommands.
#[derive(Debug, Clone)]
pub enum LocationCommands {
    Encounters { location: String, game: Option<String>, limit: u64, offset: u64 },
}

/// `pokemon` subcommands.
#[derive(Debug, Clone)]
pub enum PokemonCommands {
    List { type_filter: Option<String>, generation: Option<u32>, category: Option<String>, limit: u64, offset: u64 },
    Show { pokemon: String },
    Search { query: String, limit: u64 },
    Evolutions { pokemon: String },
    Forms { pokemon: String },
    Encounters { pokemon: String, game: Option<String> },
    Moves { pokemon: String, game: Option<String>, method: Option<String>, limit: u64, offset: u64 },
    Stats { pokemon: String },
}

/// `type` subcommands.
#[derive(Debug, Clone)]
pub enum TypeCommands {
    List,
    Matchups { type_slug: String },
    Pokemon { type_slug: String, limit: u64, offset: u64 },
}

/// `dex` subcommands.
#[derive(Debug, Clone)]
pub enum DexCommands {
    List,
    Show { dex: String, limit: u64, offset: u64 },
    Lookup { dex: String, number: u64 },
    Progress {
        dex: String,
        missing: bool,
        caught: bool,
        game: Option<String>,
        status: Option<String>,
        limit: u64,
        offset: u64,
    },
}

/// `game` subcommands.
#[derive(Debug, Clone)]
pub enum GameCommands {
    List { home_compatible: bool },
    Show { game: String },
    Encounters { game: String, limit: u64, offset: u64 },
    Exclusives { game: String, limit: u64, offset: u64 },
}

/// `collection` subcommands.
#[derive(Debug, Clone)]
pub enum CollectionCommands {
    Add {
        pokemon: String,
        game: String,
        form: Option<String>,
        shiny: bool,
        in_home: bool,
        alpha: bool,
        status: String,
        method: Option<String>,
        nickname: Option<String>,
        notes: Option<String>,
        dry_run: bool,
    },
    Remove { id: i64, dry_run: bool },
    Update {
        id: i64,
        status: Option<String>,
        in_home: Option<bool>,
        shiny: Option<bool>,
        nickname: Option<String>,
        notes: Option<String>,
        game: Option<String>,
        method: Option<String>,
        dry_run: bool,
    },
    List {
        game: Option<String>,
        pokemon: Option<String>,
        shiny_only: bool,
        in_home: bool,
        status: Option<String>,
        limit: u64,
        offset: u64,
        sort: String,
    },
    Show { id: i64 },
    Stats { game: Option<String> },
}

/// `home` subcommands.
#[derive(Debug, Clone)]
pub enum HomeCommands {
    Status,
    Transferable { pokemon: String },
    Missing { dex: String, limit: u64, offset: u64 },
    Coverage,
}

/// `db` subcommands.
#[derive(Debug, Clone)]
pub enum DbCommands {
    Seed { from: Option<String>, refresh: bool, keep_cache: bool },
}

/// The commands that read reference data and so refuse to run on an
/// unseeded database.
pub open spec fn needs_seed_spec(c: Commands) -> bool {
    match c {
        Commands::Pokemon { .. } | Commands::Type { .. } | Commands::Dex { .. } | Commands::Location { .. }
        | Commands::Item { .. } => true,
        _ => false,
    }
}

/// Whether a command needs a seeded database.
pub fn needs_seed(c: &Commands) -> (b: bool)
    ensures
        b == needs_seed_spec(*c),
{
    match c {
        Commands::Pokemon { .. } | Commands::Type { .. } | Commands::Dex { .. } | Commands::Location { .. }
        | Commands::Item { .. } => true,
        _ => false,
    }
}

/// What the program does with a parsed command line.
#[derive(Debug, Clone, Copy, PartialEq, Eq, Structural)]
pub enum Route {
    /// Print the command tree without touching the database.
    Discover,
    /// Open the database, then print the command tree (no command given).
    OpenThenDiscover,
    /// Open the database and run the command.
    Run,
}

/// `--discover` prints the command tree at once; a missing command prints
/// it after the database is opened; anything else runs.
pub fn route(discover: bool, has_command: bool) -> (r: Route)
    ensures
        r == (if discover {
            Route::Discover
        } else if !has_command {
            Route::OpenThenDiscover
        } else {
            Route::Run
        }),
{
    if discover {
        Route::Discover
    } else if !has_command {
        Route::OpenThenDiscover
    } else {
        Route::Run
    }
}

/// The message shown when a command needs a seeded database.
pub fn not_seeded_message() -> (r: &'static str)
    ensures
        r@ == "Database not seeded. Run: pokedex db seed"@,
{
    "Database not seeded. Run: pokedex db seed"
}

} // verus!
