use pokedex::db::csv_rows::{parse_level_range, parse_rate, should_skip, SqlValue};
use pokedex::db::models::{EncounterDetails, EvolutionNode, TypeInfo};
use pokedex::db::queries::{
    classify_matchups, collect_species_from_chain, dedup_methods, evolution_method, finish_encounter,
    percentage_hundredths, shown_details, stats_from_rows, EncounterRow,
};
use pokedex::db::search::{is_blank_query, rank_search, score_hundredths, SearchCandidate};
use pokedex::db::seed::{extract_csv_files, file_name, read_csv};
use pokedex::db::sql::{
    caught_where, collection_stats_queries, encounters_sql, escape_quotes_of, filtered_count_sql, list_collection_query,
    list_games_sql, list_species_query, location_encounters_query, progress_filter, update_collection_sql,
    ProgressFilter, ENCOUNTERS_SELECT, GAME_FILTER,
};

fn candidate(id: i64, name: &str, display: &str, query: &str) -> SearchCandidate {
    let q = query.to_lowercase();
    let s1 = strsim::jaro_winkler(&q, &name.to_lowercase());
    let s2 = strsim::jaro_winkler(&q, &display.to_lowercase());
    SearchCandidate {
        id,
        name: name.to_string(),
        display_name: display.to_string(),
        fuzzy: (f64::max(s1, s2) * 1_000_000.0).round() as u64,
    }
}

fn starters(query: &str) -> Vec<SearchCandidate> {
    vec![
        candidate(1, "bulbasaur", "Bulbasaur", query),
        candidate(2, "ivysaur", "Ivysaur", query),
        candidate(3, "venusaur", "Venusaur", query),
        candidate(4, "charmander", "Charmander", query),
        candidate(25, "pikachu", "Pikachu", query),
    ]
}

#[test]
fn fuzzy_search_finds_misspellings() {
    let results = rank_search("bulbsaur", &starters("bulbsaur"), 5);
    assert!(!results.is_empty(), "Fuzzy search returned no results for 'bulbsaur'");
    assert_eq!(results[0].name, "bulbasaur");
}

#[test]
fn search_scores_rounded() {
    let results = rank_search("bulbsaur", &starters("bulbsaur"), 5);
    assert!(!results.is_empty());
    for r in &results {
        let h = score_hundredths(r.score);
        assert!(h <= 100);
        assert_eq!(h, ((r.score as f64 / 1_000_000.0) * 100.0).round() as i64);
    }
}

#[test]
fn empty_search_returns_nothing() {
    let results = rank_search("", &starters(""), 10);
    assert!(results.is_empty(), "Empty search should return no results, got {}", results.len());
    let results2 = rank_search("   ", &starters("   "), 10);
    assert!(results2.is_empty(), "Whitespace search should return no results");
    assert!(is_blank_query(" \t"));
}

#[test]
fn search_tiers_and_order() {
    let r = rank_search("saur", &starters("saur"), 10);
    let names: Vec<&str> = r.iter().map(|x| x.name.as_str()).collect();
    assert_eq!(names, vec!["bulbasaur", "ivysaur", "venusaur"]);
    assert!(r.iter().all(|x| x.score == 900_000));
    let r = rank_search("Pika", &starters("Pika"), 10);
    assert_eq!(r[0].name, "pikachu");
    assert_eq!(r[0].score, 950_000);
    let r = rank_search("pikachu", &starters("pikachu"), 1);
    assert_eq!(r.len(), 1);
    assert_eq!(r[0].score, 1_000_000);
    assert_eq!(score_hundredths(954_999), 95);
    assert_eq!(score_hundredths(955_000), 96);
}

#[test]
fn percentage_rounded_to_two_decimals() {
    assert_eq!(percentage_hundredths(1, 3), 3333);
    assert_eq!(percentage_hundredths(2, 3), 6667);
    assert_eq!(percentage_hundredths(0, 0), 0);
    assert_eq!(percentage_hundredths(1025, 1025), 10000);
    assert_eq!(percentage_hundredths(1, 8), 1250);
}

#[test]
fn type_matchups_are_correct() {
    let attacking = vec![
        ("Dragon".to_string(), 200),
        ("Fairy".to_string(), 0),
        ("Steel".to_string(), 50),
        ("Fire".to_string(), 100),
    ];
    let m = classify_matchups(&attacking);
    assert!(m.super_effective.iter().any(|t| t == "Dragon"));
    assert!(m.no_effect.iter().any(|t| t == "Fairy"));
    assert_eq!(m.not_very_effective, vec!["Steel".to_string()]);
    let defending = vec![("Ice".to_string(), 200), ("Dragon".to_string(), 200), ("Fairy".to_string(), 200)];
    let d = classify_matchups(&defending);
    assert!(d.super_effective.iter().any(|t| t == "Ice"));
    assert!(d.super_effective.iter().any(|t| t == "Fairy"));
}

#[test]
fn pokemon_stats_sum_correctly() {
    let rows = vec![
        ("hp".to_string(), 108),
        ("attack".to_string(), 130),
        ("defense".to_string(), 95),
        ("special-attack".to_string(), 80),
        ("special-defense".to_string(), 85),
        ("speed".to_string(), 102),
    ];
    let stats = stats_from_rows("garchomp".to_string(), &rows);
    assert_eq!(stats.total, 600, "Garchomp BST should be 600, got {}", stats.total);
    assert_eq!(stats.attack, 130);
    assert_eq!(stats.speed, 102);
}

fn node(name: &str, children: Vec<EvolutionNode>) -> EvolutionNode {
    EvolutionNode { species_id: 0, species_name: name.to_string(), display_name: name.to_string(), methods: vec![], children }
}

#[test]
fn evolution_actions_include_all_chain_members() {
    let kids = ["vaporeon", "jolteon", "flareon", "espeon", "umbreon", "leafeon", "glaceon", "sylveon"]
        .iter()
        .map(|n| node(n, vec![]))
        .collect();
    let chain = node("eevee", kids);
    let mut names = Vec::new();
    collect_species_from_chain(&chain, &mut names);
    assert!(names.len() >= 9, "Eevee chain should have 9+ members, got {}", names.len());
    assert_eq!(names[0], "eevee");
    assert_eq!(names[8], "sylveon");
}

#[test]
fn dedup_keeps_first_of_each_trigger() {
    let a = evolution_method("trade".to_string(), "".to_string(), None, None);
    let b = evolution_method("trade".to_string(), "".to_string(), Some("x".to_string()), None);
    let c = evolution_method("trade".to_string(), "holding metal-coat".to_string(), None, None);
    assert_eq!(a.trigger_detail, None);
    let r = dedup_methods(vec![a, b, c]);
    assert_eq!(r.len(), 2);
    assert_eq!(r[0].location, None);
    assert_eq!(r[1].trigger_detail.as_deref(), Some("holding metal-coat"));
}

fn row(method: &str, min: i64, max: i64, rarity: Option<i64>) -> EncounterRow {
    EncounterRow {
        location: "Route 1".to_string(),
        area: "".to_string(),
        game: "Sword".to_string(),
        game_slug: "sword".to_string(),
        method: method.to_string(),
        min_level: min,
        max_level: max,
        rarity,
    }
}

#[test]
fn level1_placeholder_encounters_have_null_levels() {
    let e = finish_encounter(row("Max Raid Battle", 1, 1, None), "Charizard", "charizard", vec![], None, None).unwrap();
    assert!(e.min_level.is_none() || e.min_level.unwrap() > 1);
    assert_eq!(e.max_level, None);
    let w = finish_encounter(row("Walking in tall grass", 1, 1, Some(20)), "Pidgey", "pidgey", vec![], None, None).unwrap();
    assert_eq!(w.min_level, Some(1));
}

#[test]
fn uncatchable_rows_dropped_and_rates_preferred() {
    let mut d = EncounterDetails::default();
    d.note = Some("Can not be caught".to_string());
    assert!(finish_encounter(row("Static Encounter", 50, 50, None), "Zacian", "zacian", vec![], Some(d), None).is_none());
    let mut d = EncounterDetails::default();
    d.rate_overall = Some("35%".to_string());
    let e = finish_encounter(row("Walking", 5, 8, Some(100)), "Pikachu", "pikachu", vec![], Some(d), None).unwrap();
    assert_eq!(e.rarity, Some(35));
    let g = finish_encounter(row("Walking", 5, 8, Some(100)), "Darumaka", "darumaka", vec![], None, Some("Galarian")).unwrap();
    assert_eq!(g.pokemon_name, "Galarian Darumaka");
    let t = finish_encounter(row("Trade", 5, 8, None), "Darumaka", "darumaka", vec![], None, Some("Galarian")).unwrap();
    assert_eq!(t.pokemon_name, "Darumaka");
}

#[test]
fn no_empty_encounter_details_in_output() {
    assert!(shown_details(EncounterDetails::default()).is_none());
    let mut d = EncounterDetails::default();
    d.during_day = Some(true);
    assert!(shown_details(d).is_some());
}

#[test]
fn level_ranges_and_rates() {
    assert_eq!(parse_level_range("5 - 10"), (5, 10));
    assert_eq!(parse_level_range("12"), (12, 12));
    assert_eq!(parse_rate(Some("25%")), Some(25));
    assert_eq!(parse_rate(None), None);
    assert!(should_skip("conquest_pokemon_stats.csv"));
    assert!(!should_skip("pokemon.csv"));
}

#[test]
fn csv_is_parsed_into_rows() {
    let rows = read_csv(b"id,identifier\n1,bulbasaur\n2,ivysaur\n").unwrap();
    assert_eq!(rows.len(), 2);
    assert_eq!(rows[1].fields, vec![("id".to_string(), "2".to_string()), ("identifier".to_string(), "ivysaur".to_string())]);
}

#[test]
fn archive_csv_files_are_extracted() {
    let mut builder = tar::Builder::new(Vec::new());
    let data = b"id\n1\n";
    let mut header = tar::Header::new_gnu();
    header.set_size(data.len() as u64);
    header.set_mode(0o644);
    header.set_cksum();
    builder.append_data(&mut header, "pokeapi/data/v2/csv/types.csv", &data[..]).unwrap();
    let mut header = tar::Header::new_gnu();
    header.set_size(3);
    header.set_mode(0o644);
    header.set_cksum();
    builder.append_data(&mut header, "pokeapi/README.md", &b"hi\n"[..]).unwrap();
    let tarball = builder.into_inner().unwrap();
    let mut enc = flate2::write::GzEncoder::new(Vec::new(), flate2::Compression::default());
    std::io::Write::write_all(&mut enc, &tarball).unwrap();
    let gz = enc.finish().unwrap();
    let files = extract_csv_files(&gz).unwrap();
    assert_eq!(files.len(), 1);
    assert_eq!(files[0].0, "types.csv");
    assert_eq!(files[0].1, b"id\n1\n".to_vec());
    assert!(extract_csv_files(b"not gzip").is_err());
    assert_eq!(file_name("a/b/c.csv"), "c.csv");
}

#[test]
fn species_listing_sql() {
    let q = list_species_query(Some("fire"), Some(1), Some("Legendary"), 50, 0);
    assert!(q.count_sql.starts_with("SELECT COUNT(*) FROM species s WHERE EXISTS"));
    assert!(q.count_sql.ends_with(" AND s.generation_id = ?2 AND s.is_legendary = 1"));
    assert!(q.select_sql.ends_with(" ORDER BY s.id LIMIT ?3 OFFSET ?4"));
    assert_eq!(q.count_params, vec![SqlValue::Text("fire".to_string()), SqlValue::Integer(1)]);
    assert_eq!(q.select_params.len(), 4);
    let q = list_species_query(None, Some(3), Some("weird"), 10, 20);
    assert_eq!(q.count_sql, "SELECT COUNT(*) FROM species s WHERE s.generation_id = ?1");
    assert_eq!(q.select_sql, "SELECT s.id, s.name, s.generation_id FROM species s WHERE s.generation_id = ?1 ORDER BY s.id LIMIT ?2 OFFSET ?3");
    assert_eq!(q.select_params, vec![SqlValue::Integer(3), SqlValue::Integer(10), SqlValue::Integer(20)]);
}

#[test]
fn list_collection_sort_by_dex() {
    let q = list_collection_query(None, Some("pikachu"), true, false, Some("caught"), 50, 0, "dex");
    assert!(q.select_sql.contains("WHERE (LOWER(s.name) = LOWER(?1) OR LOWER(sn.name) = LOWER(?1)) AND c.shiny = 1 AND c.status = ?2 ORDER BY c.species_id ASC LIMIT ?3 OFFSET ?4"));
    let q = list_collection_query(None, None, false, false, None, 50, 0, "id");
    assert!(q.select_sql.ends_with(" ORDER BY c.id DESC LIMIT ?1 OFFSET ?2"));
    assert!(q.count_params.is_empty());
}

#[test]
fn update_binds_changes_then_id() {
    let (sql, ps) = update_collection_sql(9, Some("evolved"), Some(true), None, None, Some("n"), Some(3), None).unwrap();
    assert_eq!(sql, "UPDATE collection SET status = ?1, in_home = ?2, notes = ?3, game_id = ?4, updated_at = datetime('now') WHERE id = ?5");
    assert_eq!(
        ps,
        vec![
            SqlValue::Text("evolved".to_string()),
            SqlValue::Integer(1),
            SqlValue::Text("n".to_string()),
            SqlValue::Integer(3),
            SqlValue::Integer(9)
        ]
    );
    assert!(update_collection_sql(9, None, None, None, None, None, None, None).is_none());
}

#[test]
fn dex_progress_excludes_traded_away() {
    let cw = caught_where(Some("sword"), Some("living_dex"));
    assert_eq!(
        cw,
        "c.status != 'traded_away' AND c.game_id = (SELECT id FROM games WHERE LOWER(name) = LOWER('sword')) AND c.status = 'living_dex'"
    );
    assert_eq!(progress_filter(true, true), ProgressFilter::Missing);
    assert_eq!(progress_filter(false, false), ProgressFilter::All);
    assert!(filtered_count_sql(ProgressFilter::All, &cw).is_none());
    assert!(filtered_count_sql(ProgressFilter::Caught, &cw).unwrap().contains("AND EXISTS (SELECT 1 FROM collection c"));
}

#[test]
fn collection_stats_with_game_filter() {
    assert_eq!(escape_quotes_of("farfetch'd"), "farfetch''d");
    let q = collection_stats_queries(Some("let's-go"));
    assert_eq!(q.total, "SELECT COUNT(*) FROM collection c JOIN games g ON g.id = c.game_id WHERE LOWER(g.name) = LOWER('let''s-go')");
    assert!(q.shiny.ends_with("') AND c.shiny = 1"));
    let q = collection_stats_queries(None);
    assert_eq!(q.shiny, "SELECT COUNT(*) FROM collection c WHERE c.shiny = 1");
    assert_eq!(q.by_status, "SELECT c.status, COUNT(*) FROM collection c GROUP BY c.status ORDER BY c.status");
}

#[test]
fn games_and_encounter_sql() {
    assert!(list_games_sql(true).ends_with("  WHERE g.connects_to_home = 1 GROUP BY g.id ORDER BY g.id"));
    assert!(list_games_sql(false).ends_with(" GROUP BY g.id ORDER BY g.id"));
    let (sql, ps) = encounters_sql(25, Some("red"));
    assert_eq!(sql, format!("{ENCOUNTERS_SELECT}{GAME_FILTER} ORDER BY loc_name, area_name, method_name"));
    assert_eq!(ps, vec![SqlValue::Integer(25), SqlValue::Text("red".to_string())]);
    let q = location_encounters_query("Route-1", 0, None, 50, 0);
    assert!(q.count_sql.contains(" LIKE '%' || LOWER(?1) || '%'"));
    assert_eq!(q.count_params, vec![SqlValue::Text("route-1".to_string())]);
    assert!(q.select_sql.ends_with(" ORDER BY pokemon_name, method_name LIMIT ?2 OFFSET ?3"));
    let q = location_encounters_query("Route-1", 4, Some("red"), 50, 0);
    assert!(!q.count_sql.contains("LIKE"));
    assert!(q.select_sql.ends_with("LIMIT ?3 OFFSET ?4"));
}

#[test]
fn type_info_is_plain_data() {
    let t = TypeInfo { name: "fire".to_string(), display_name: "Fire".to_string() };
    assert_eq!(t.clone().name, "fire");
}
