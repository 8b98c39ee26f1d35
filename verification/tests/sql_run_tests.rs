// The statements the library builds, run against a small in-memory database
// that holds the tables and columns they read.
use pokedex::commands::pokemon::{apply_form_data, FormData};
use pokedex::db::csv_rows::SqlValue;
use pokedex::db::models::Species;
use pokedex::db::sql::{
    COLLECTION_DELETE, COLLECTION_INSERT, ENCOUNTER_DEDUP, ENCOUNTER_INSERT, GAMES_FROM_VERSIONS, GAME_VERSION_LINK,
};
use pokedex::db::sql::{
    caught_count_sql, caught_where, collection_stats_queries, encounters_sql, exact_location_count_sql,
    filtered_count_sql, list_collection_query, list_games_sql, list_species_query, location_encounters_query,
    pokemon_moves_query, progress_entries_sql, FORM_GENERATION_SQL, progress_filter, update_collection_sql, ListQuery, ProgressFilter,
};
use rusqlite::types::Value;
use rusqlite::{params_from_iter, Connection};

fn i(n: i64) -> Value {
    Value::Integer(n)
}

fn t(s: &str) -> Value {
    Value::Text(s.to_string())
}

const SCHEMA: &str = "
CREATE TABLE generations (id INTEGER PRIMARY KEY);
CREATE TABLE regions (id INTEGER PRIMARY KEY, name TEXT);
CREATE TABLE region_names (region_id INTEGER, name TEXT);
CREATE TABLE version_groups (id INTEGER PRIMARY KEY, name TEXT, generation_id INTEGER);
CREATE TABLE version_group_regions (version_group_id INTEGER, region_id INTEGER);
CREATE TABLE versions (id INTEGER PRIMARY KEY, name TEXT, version_group_id INTEGER);
CREATE TABLE version_names (version_id INTEGER, name TEXT);
CREATE TABLE games (id INTEGER PRIMARY KEY, name TEXT, connects_to_home INTEGER, transfer_direction TEXT, version_group_id INTEGER);
CREATE TABLE species (id INTEGER PRIMARY KEY, name TEXT, generation_id INTEGER, is_baby INTEGER DEFAULT 0, is_legendary INTEGER DEFAULT 0, is_mythical INTEGER DEFAULT 0);
CREATE TABLE species_names (species_id INTEGER, name TEXT);
CREATE TABLE pokemon (id INTEGER PRIMARY KEY, name TEXT, species_id INTEGER, is_default INTEGER);
CREATE TABLE types (id INTEGER PRIMARY KEY, name TEXT);
CREATE TABLE type_names (type_id INTEGER, name TEXT);
CREATE TABLE pokemon_types (pokemon_id INTEGER, type_id INTEGER, slot INTEGER);
CREATE TABLE pokemon_forms (id INTEGER PRIMARY KEY, name TEXT, form_name TEXT, pokemon_id INTEGER, is_default INTEGER,
    form_order INTEGER, introduced_in_version_group_id INTEGER);
CREATE TABLE pokemon_form_names (pokemon_form_id INTEGER, name TEXT, pokemon_name TEXT);
CREATE TABLE pokemon_dex_numbers (pokedex_id INTEGER, species_id INTEGER, pokedex_number INTEGER);
CREATE TABLE collection (id INTEGER PRIMARY KEY AUTOINCREMENT, species_id INTEGER, form_id INTEGER, game_id INTEGER,
    shiny INTEGER DEFAULT 0, in_home INTEGER DEFAULT 0, is_alpha INTEGER DEFAULT 0, status TEXT DEFAULT 'caught',
    method TEXT, nickname TEXT, notes TEXT, created_at TEXT DEFAULT (datetime('now')), updated_at TEXT DEFAULT (datetime('now')));
CREATE TABLE locations (id INTEGER PRIMARY KEY, name TEXT);
CREATE TABLE location_names (location_id INTEGER, name TEXT);
CREATE TABLE location_areas (id INTEGER PRIMARY KEY, location_id INTEGER, name TEXT);
CREATE TABLE encounter_methods (id INTEGER PRIMARY KEY, name TEXT);
CREATE TABLE encounter_method_names (encounter_method_id INTEGER, name TEXT);
CREATE TABLE encounter_slots (id INTEGER PRIMARY KEY, encounter_method_id INTEGER, rarity INTEGER);
CREATE TABLE encounters (id INTEGER PRIMARY KEY, pokemon_id INTEGER, version_id INTEGER, location_area_id INTEGER,
    encounter_slot_id INTEGER, min_level INTEGER, max_level INTEGER);
CREATE TABLE moves (id INTEGER PRIMARY KEY, name TEXT, type_id INTEGER, power INTEGER, accuracy INTEGER, pp INTEGER, damage_class_id INTEGER);
CREATE TABLE move_names (move_id INTEGER, name TEXT);
CREATE TABLE move_damage_classes (id INTEGER PRIMARY KEY, name TEXT);
CREATE TABLE move_damage_class_names (move_damage_class_id INTEGER, name TEXT);
CREATE TABLE pokemon_move_methods (id INTEGER PRIMARY KEY, name TEXT);
CREATE TABLE pokemon_moves (pokemon_id INTEGER, move_id INTEGER, version_group_id INTEGER, pokemon_move_method_id INTEGER, level INTEGER);
";

const DATA: &str = "
INSERT INTO generations VALUES (1), (7), (8);
INSERT INTO regions VALUES (1, 'kanto'), (8, 'galar');
INSERT INTO region_names VALUES (1, 'Kanto'), (8, 'Galar');
INSERT INTO version_groups VALUES (1, 'red-blue', 1), (17, 'sun-moon', 7), (20, 'sword-shield', 8);
INSERT INTO version_group_regions VALUES (1, 1), (20, 8);
INSERT INTO versions VALUES (1, 'red', 1), (33, 'sword', 20);
INSERT INTO version_names VALUES (1, 'Red'), (33, 'Sword');
INSERT INTO games VALUES (1, 'red', 0, NULL, 1), (2, 'sword', 1, 'both', 20);
INSERT INTO types VALUES (10, 'fire'), (11, 'water'), (12, 'grass');
INSERT INTO type_names VALUES (10, 'Fire'), (11, 'Water'), (12, 'Grass');
INSERT INTO move_damage_classes VALUES (1, 'physical'), (2, 'special');
INSERT INTO pokemon_move_methods VALUES (1, 'level-up'), (4, 'machine');
INSERT INTO moves VALUES (52, 'ember', 10, 40, 100, 25, 2), (10, 'scratch', NULL, 40, 100, 35, 1);
INSERT INTO move_names VALUES (52, 'Ember');
INSERT INTO locations VALUES (88, 'viridian-forest'), (89, 'route-1');
INSERT INTO location_names VALUES (88, 'Viridian Forest'), (89, 'Route 1');
INSERT INTO location_areas VALUES (321, 88, 'viridian-forest-area'), (322, 89, 'route-1-area');
INSERT INTO encounter_methods VALUES (1, 'walk');
INSERT INTO encounter_method_names VALUES (1, 'Walking in tall grass');
INSERT INTO encounter_slots VALUES (1, 1, 20), (2, 1, 5);
";

fn open_db() -> Connection {
    let conn = Connection::open_in_memory().unwrap();
    conn.execute_batch(SCHEMA).unwrap();
    conn.execute_batch(DATA).unwrap();
    // Twelve species in the national dex; 4 (charmander) is fire, 7 (squirtle) water,
    // 144 (articuno) a legendary of generation 1.
    let species: [(i64, &str, i64, i64); 12] = [
        (1, "bulbasaur", 12, 0),
        (2, "ivysaur", 12, 0),
        (3, "venusaur", 12, 0),
        (4, "charmander", 10, 0),
        (5, "charmeleon", 10, 0),
        (6, "charizard", 10, 0),
        (7, "squirtle", 11, 0),
        (8, "wartortle", 11, 0),
        (9, "blastoise", 11, 0),
        (144, "articuno", 11, 1),
        (810, "grookey", 12, 0),
        (1025, "pecharunt", 12, 0),
    ];
    for (k, (id, name, ty, legendary)) in species.iter().enumerate() {
        let generation = if *id > 800 { 8 } else { 1 };
        conn.execute(
            "INSERT INTO species (id, name, generation_id, is_legendary) VALUES (?1, ?2, ?3, ?4)",
            params_from_iter(vec![i(*id), t(name), i(generation), i(*legendary)]),
        )
        .unwrap();
        conn.execute("INSERT INTO pokemon VALUES (?1, ?2, ?1, 1)", params_from_iter(vec![i(*id), t(name)])).unwrap();
        conn.execute("INSERT INTO pokemon_types VALUES (?1, ?2, 1)", params_from_iter(vec![i(*id), i(*ty)])).unwrap();
        conn.execute("INSERT INTO pokemon_dex_numbers VALUES (1, ?1, ?2)", params_from_iter(vec![i(*id), i((k as i64) + 1)])).unwrap();
    }
    conn.execute("INSERT INTO species_names VALUES (4, 'Charmander')", []).unwrap();
    conn.execute(
        "INSERT INTO encounters VALUES (1, 4, 1, 321, 1, 3, 5), (2, 7, 1, 322, 2, 2, 4), (3, 810, 33, 322, 1, 10, 12)",
        [],
    )
    .unwrap();
    conn.execute(
        "INSERT INTO pokemon_moves VALUES (4, 52, 1, 1, 7), (4, 10, 1, 1, 1), (4, 52, 20, 4, 0)",
        [],
    )
    .unwrap();
    conn
}

fn bind(ps: &[SqlValue]) -> Vec<rusqlite::types::Value> {
    ps.iter()
        .map(|v| match v {
            SqlValue::Null => rusqlite::types::Value::Null,
            SqlValue::Integer(n) => rusqlite::types::Value::Integer(*n),
            SqlValue::Text(s) => rusqlite::types::Value::Text(s.clone()),
        })
        .collect()
}

fn count(conn: &Connection, sql: &str, ps: &[SqlValue]) -> i64 {
    conn.query_row(sql, params_from_iter(bind(ps)), |row| row.get(0)).unwrap()
}

fn first_ints(conn: &Connection, q: &ListQuery) -> Vec<i64> {
    let mut stmt = conn.prepare(&q.select_sql).unwrap();
    let rows = stmt.query_map(params_from_iter(bind(&q.select_params)), |row| row.get::<_, i64>(0)).unwrap();
    rows.map(|r| r.unwrap()).collect()
}

fn add(conn: &Connection, species: i64, game: i64, status: &str, shiny: bool, in_home: bool) -> i64 {
    conn.execute(
        "INSERT INTO collection (species_id, game_id, status, shiny, in_home) VALUES (?1, ?2, ?3, ?4, ?5)",
        params_from_iter(vec![i(species), i(game), t(status), i(shiny as i64), i(in_home as i64)]),
    )
    .unwrap();
    conn.last_insert_rowid()
}

#[test]
fn species_listing_runs_with_each_filter() {
    let conn = open_db();
    let q = list_species_query(None, None, None, 5, 0);
    assert_eq!(count(&conn, &q.count_sql, &q.count_params), 12);
    assert_eq!(first_ints(&conn, &q), vec![1, 2, 3, 4, 5]);
    let q = list_species_query(Some("FIRE"), None, None, 50, 0);
    assert_eq!(count(&conn, &q.count_sql, &q.count_params), 3);
    assert_eq!(first_ints(&conn, &q), vec![4, 5, 6]);
    let q = list_species_query(Some("Water"), Some(1), Some("legendary"), 50, 0);
    assert_eq!(first_ints(&conn, &q), vec![144]);
    let q = list_species_query(None, Some(8), None, 1, 1);
    assert_eq!(count(&conn, &q.count_sql, &q.count_params), 2);
    assert_eq!(first_ints(&conn, &q), vec![1025]);
}

#[test]
fn progress_pages_and_leaves_traded_away_uncaught() {
    let conn = open_db();
    add(&conn, 1025, 2, "traded_away", false, false);
    add(&conn, 4, 2, "caught", false, false);
    let cw = caught_where(None, None);
    assert_eq!(count(&conn, &caught_count_sql(&cw), &[SqlValue::Integer(1)]), 1);
    let sql = progress_entries_sql(ProgressFilter::All, &cw);
    let mut stmt = conn.prepare(&sql).unwrap();
    let rows: Vec<(i64, bool)> = stmt
        .query_map(params_from_iter(vec![i(1), i(10), i(0)]), |row| Ok((row.get(1)?, row.get::<_, i64>(4)? != 0)))
        .unwrap()
        .map(|r| r.unwrap())
        .collect();
    assert_eq!(rows.len(), 10);
    assert!(rows.contains(&(4, true)));
    let rows: Vec<(i64, bool)> = stmt
        .query_map(params_from_iter(vec![i(1), i(10), i(10)]), |row| Ok((row.get(1)?, row.get::<_, i64>(4)? != 0)))
        .unwrap()
        .map(|r| r.unwrap())
        .collect();
    assert_eq!(rows, vec![(810, false), (1025, false)]);
    let missing = filtered_count_sql(progress_filter(true, false), &cw).unwrap();
    assert_eq!(count(&conn, &missing, &[SqlValue::Integer(1)]), 11);
    let caught = filtered_count_sql(progress_filter(false, true), &cw).unwrap();
    assert_eq!(count(&conn, &caught, &[SqlValue::Integer(1)]), 1);
}

#[test]
fn progress_filters_by_game_and_status() {
    let conn = open_db();
    add(&conn, 1, 1, "caught", false, false);
    add(&conn, 2, 2, "living_dex", false, false);
    let cw = caught_where(Some("SWORD"), None);
    assert_eq!(count(&conn, &caught_count_sql(&cw), &[SqlValue::Integer(1)]), 1);
    let cw = caught_where(None, Some("living_dex"));
    assert_eq!(count(&conn, &caught_count_sql(&cw), &[SqlValue::Integer(1)]), 1);
    let cw = caught_where(Some("red"), Some("living_dex"));
    assert_eq!(count(&conn, &caught_count_sql(&cw), &[SqlValue::Integer(1)]), 0);
}

#[test]
fn collection_listing_filters_and_sorts() {
    let conn = open_db();
    add(&conn, 7, 2, "caught", true, false);
    add(&conn, 4, 2, "caught", false, true);
    add(&conn, 1, 1, "evolved", true, true);
    let q = list_collection_query(None, None, false, false, None, 50, 0, "dex");
    assert_eq!(count(&conn, &q.count_sql, &q.count_params), 3);
    assert_eq!(first_ints(&conn, &q), vec![3, 2, 1]);
    let q = list_collection_query(None, None, false, false, None, 50, 0, "id");
    assert_eq!(first_ints(&conn, &q), vec![3, 2, 1]);
    let q = list_collection_query(Some("sword"), None, true, false, None, 50, 0, "id");
    assert_eq!(first_ints(&conn, &q), vec![1]);
    let q = list_collection_query(None, Some("Charmander"), false, true, Some("caught"), 50, 0, "id");
    assert_eq!(first_ints(&conn, &q), vec![2]);
    let mut stmt = conn.prepare(&list_collection_query(None, None, false, false, None, 50, 0, "dex").select_sql).unwrap();
    let species: Vec<i64> = stmt
        .query_map(params_from_iter(vec![i(50), i(0)]), |row| row.get(1))
        .unwrap()
        .map(|r| r.unwrap())
        .collect();
    assert_eq!(species, vec![1, 4, 7]);
}

#[test]
fn collection_stats_count_within_a_game() {
    let conn = open_db();
    add(&conn, 7, 2, "caught", true, false);
    add(&conn, 7, 2, "living_dex", false, true);
    add(&conn, 1, 1, "caught", true, true);
    let all = collection_stats_queries(None);
    let sword = collection_stats_queries(Some("Sword"));
    assert_eq!(count(&conn, &all.total, &[]), 3);
    assert_eq!(count(&conn, &sword.total, &[]), 2);
    assert_eq!(count(&conn, &sword.unique_species, &[]), 1);
    assert_eq!(count(&conn, &sword.shiny, &[]), 1);
    assert_eq!(count(&conn, &all.in_home, &[]), 2);
    let mut stmt = conn.prepare(&sword.by_status).unwrap();
    let by_status: Vec<(String, i64)> =
        stmt.query_map([], |row| Ok((row.get(0)?, row.get(1)?))).unwrap().map(|r| r.unwrap()).collect();
    assert_eq!(by_status, vec![("caught".to_string(), 1), ("living_dex".to_string(), 1)]);
}

#[test]
fn update_statement_changes_only_named_columns() {
    let conn = open_db();
    let id = add(&conn, 4, 1, "caught", false, false);
    let (sql, ps) = update_collection_sql(id, Some("evolved"), Some(true), None, Some("Charry"), None, Some(2), None).unwrap();
    let changed = conn.execute(&sql, params_from_iter(bind(&ps))).unwrap();
    assert_eq!(changed, 1);
    let row: (String, i64, i64, String, i64) = conn
        .query_row("SELECT status, in_home, shiny, nickname, game_id FROM collection WHERE id = ?1", params_from_iter(vec![i(id)]), |r| {
            Ok((r.get(0)?, r.get(1)?, r.get(2)?, r.get(3)?, r.get(4)?))
        })
        .unwrap();
    assert_eq!(row, ("evolved".to_string(), 1, 0, "Charry".to_string(), 2));
}

#[test]
fn games_listing_names_generation_and_region() {
    let conn = open_db();
    let mut stmt = conn.prepare(&list_games_sql(true)).unwrap();
    let rows: Vec<(String, i64, String, String)> = stmt
        .query_map([], |row| Ok((row.get(1)?, row.get(4)?, row.get(5)?, row.get(6)?)))
        .unwrap()
        .map(|r| r.unwrap())
        .collect();
    assert_eq!(rows, vec![("sword".to_string(), 8, "Galar".to_string(), "Sword".to_string())]);
    let mut stmt = conn.prepare(&list_games_sql(false)).unwrap();
    assert_eq!(stmt.query_map([], |row| row.get::<_, String>(1)).unwrap().count(), 2);
}

#[test]
fn species_encounters_filter_by_game() {
    let conn = open_db();
    let (sql, ps) = encounters_sql(4, None);
    let mut stmt = conn.prepare(&sql).unwrap();
    let rows: Vec<(String, String, i64)> = stmt
        .query_map(params_from_iter(bind(&ps)), |row| Ok((row.get(0)?, row.get(3)?, row.get(6)?)))
        .unwrap()
        .map(|r| r.unwrap())
        .collect();
    assert_eq!(rows, vec![("Viridian Forest".to_string(), "Walking in tall grass".to_string(), 20)]);
    let (sql, ps) = encounters_sql(4, Some("Sword"));
    let mut stmt = conn.prepare(&sql).unwrap();
    assert_eq!(stmt.query_map(params_from_iter(bind(&ps)), |row| row.get::<_, String>(0)).unwrap().count(), 0);
    let (sql, ps) = encounters_sql(810, Some("sword"));
    let mut stmt = conn.prepare(&sql).unwrap();
    assert_eq!(stmt.query_map(params_from_iter(bind(&ps)), |row| row.get::<_, String>(0)).unwrap().count(), 1);
}

#[test]
fn location_encounters_match_exact_then_partial_names() {
    let conn = open_db();
    let exact = count(&conn, &exact_location_count_sql(), &[SqlValue::Text("route 1".to_string())]);
    assert_eq!(exact, 2);
    let q = location_encounters_query("Route 1", exact as u64, None, 50, 0);
    assert_eq!(count(&conn, &q.count_sql, &q.count_params), 2);
    let q = location_encounters_query("Route 1", exact as u64, Some("sword"), 50, 0);
    assert_eq!(count(&conn, &q.count_sql, &q.count_params), 1);
    let mut stmt = conn.prepare(&q.select_sql).unwrap();
    let names: Vec<String> = stmt
        .query_map(params_from_iter(bind(&q.select_params)), |row| row.get(0))
        .unwrap()
        .map(|r| r.unwrap())
        .collect();
    assert_eq!(names, vec!["grookey".to_string()]);
    let partial = count(&conn, &exact_location_count_sql(), &[SqlValue::Text("viridian".to_string())]);
    assert_eq!(partial, 0);
    let q = location_encounters_query("viridian", 0, None, 50, 0);
    assert_eq!(count(&conn, &q.count_sql, &q.count_params), 1);
}

#[test]
fn moves_filter_by_game_and_method() {
    let conn = open_db();
    let q = pokemon_moves_query(4, Some("red"), Some("Level-Up"), 50, 0);
    assert_eq!(count(&conn, &q.count_sql, &q.count_params), 1);
    let mut stmt = conn.prepare(&q.select_sql).unwrap();
    let rows: Vec<(String, String, i64)> = stmt
        .query_map(params_from_iter(bind(&q.select_params)), |row| Ok((row.get(0)?, row.get(1)?, row.get(8)?)))
        .unwrap()
        .map(|r| r.unwrap())
        .collect();
    assert_eq!(rows, vec![("ember".to_string(), "Ember".to_string(), 7)]);
    let q = pokemon_moves_query(4, None, None, 50, 0);
    assert_eq!(count(&conn, &q.count_sql, &q.count_params), 2);
    let q = pokemon_moves_query(4, Some("sword"), None, 50, 0);
    assert_eq!(count(&conn, &q.count_sql, &q.count_params), 1);
}

#[test]
fn regional_form_shows_the_generation_it_was_introduced_in() {
    let conn = open_db();
    conn.execute_batch(
        "INSERT INTO species (id, name, generation_id) VALUES (52, 'meowth', 1);
         INSERT INTO pokemon VALUES (52, 'meowth', 52, 1), (10107, 'meowth-alola', 52, 0);
         INSERT INTO pokemon_forms VALUES (52, 'meowth', NULL, 52, 1, 1, 1), (10123, 'meowth-alola', 'alola', 10107, 1, 2, 17);",
    )
    .unwrap();
    let g: Option<i64> = conn.query_row(FORM_GENERATION_SQL, params_from_iter(vec![i(10107)]), |row| row.get(0)).unwrap();
    assert_eq!(g, Some(7));
    let mut species = Species {
        id: 52,
        name: "meowth".to_string(),
        display_name: "Meowth".to_string(),
        generation: 1,
        types: vec!["Normal".to_string()],
        capture_rate: 255,
        is_baby: false,
        is_legendary: false,
        is_mythical: false,
        evolves_from: None,
        genus: None,
        egg_groups: vec![],
        stats: None,
        abilities: vec![],
    };
    let form = FormData {
        selects_pokemon: true,
        generation: g,
        types: vec!["Dark".to_string()],
        display_name: Some("Alolan Meowth".to_string()),
        stats: None,
        abilities: None,
        cosmetic_display_name: None,
    };
    apply_form_data(&mut species, form);
    assert_eq!(species.generation, 7);
    assert_eq!(species.types, vec!["Dark".to_string()]);
    assert_eq!(species.display_name, "Alolan Meowth");
    assert_eq!(species.name, "meowth");
}

#[test]
fn dropping_reference_data_keeps_the_collection() {
    let conn = open_db();
    add(&conn, 4, 2, "caught", true, false);
    add(&conn, 7, 1, "living_dex", false, true);
    let mut emptied = 0;
    for table in pokedex::db::seed_plan::reference_tables() {
        let exists: i64 = conn
            .query_row("SELECT COUNT(*) FROM sqlite_master WHERE type = 'table' AND name = ?1", params_from_iter(vec![t(table)]), |row| row.get(0))
            .unwrap();
        if exists == 1 {
            conn.execute(&pokedex::db::seed_plan::delete_all_sql(table), []).unwrap();
            emptied += 1;
        }
    }
    assert!(emptied > 20);
    assert_eq!(count(&conn, "SELECT COUNT(*) FROM species", &[]), 0);
    assert_eq!(count(&conn, "SELECT COUNT(*) FROM collection", &[]), 2);
    assert_eq!(count(&conn, "SELECT COUNT(*) FROM games", &[]), 2);
}

#[test]
fn plain_statements_run() {
    let conn = open_db();
    conn.execute(
        COLLECTION_INSERT,
        params_from_iter(vec![i(4), Value::Null, i(2), i(1), i(0), i(0), t("caught"), t("catch"), Value::Null, t("n")]),
    )
    .unwrap();
    let id = conn.last_insert_rowid();
    assert_eq!(count(&conn, "SELECT COUNT(*) FROM collection WHERE notes = 'n' AND method = 'catch'", &[]), 1);
    assert_eq!(conn.execute(COLLECTION_DELETE, params_from_iter(vec![i(id)])).unwrap(), 1);
    assert_eq!(conn.execute(COLLECTION_DELETE, params_from_iter(vec![i(id)])).unwrap(), 0);
    conn.execute(ENCOUNTER_INSERT, params_from_iter(vec![i(50), i(1), i(321), i(1), i(4), i(3), i(5)])).unwrap();
    assert_eq!(conn.execute(ENCOUNTER_DEDUP, []).unwrap(), 1);
    assert_eq!(count(&conn, "SELECT COUNT(*) FROM encounters WHERE pokemon_id = 4", &[]), 1);
    conn.execute("UPDATE games SET version_group_id = NULL WHERE name = 'sword'", []).unwrap();
    conn.execute(GAME_VERSION_LINK, params_from_iter(vec![t("sword"), t("sword")])).unwrap();
    assert_eq!(count(&conn, "SELECT version_group_id FROM games WHERE name = 'sword'", &[]), 20);
    conn.execute("DELETE FROM games WHERE name = 'red'", []).unwrap();
    conn.execute(GAMES_FROM_VERSIONS, []).unwrap();
    assert_eq!(count(&conn, "SELECT connects_to_home FROM games WHERE name = 'red'", &[]), 0);
}
