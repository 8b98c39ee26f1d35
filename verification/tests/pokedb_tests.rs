use pokedex::db::csv_rows::parse_level_range;
use pokedex::db::models::EncounterDetails;
use pokedex::db::pokedb::{
    existing_or_next, int_field, place_zone, plan_pokedb_encounter, plan_za_encounter, plan_za_encounters,
    pokedb_objects, probability_and_note, text, EncounterOutcome, IdAllocator, PokedbObject,
};
use pokedex::db::search::{closest_names, names_above};

fn object(texts: &[(&str, &str)], flags: &[(&str, bool)], ints: &[(&str, i64)], versions: Option<Vec<&str>>) -> PokedbObject {
    let mut present: Vec<String> = texts.iter().map(|(k, _)| k.to_string()).collect();
    present.extend(flags.iter().map(|(k, _)| k.to_string()));
    present.extend(ints.iter().map(|(k, _)| k.to_string()));
    PokedbObject {
        present_keys: present,
        text_values: texts.iter().map(|(k, v)| (k.to_string(), v.to_string())).collect(),
        flag_values: flags.iter().map(|(k, v)| (k.to_string(), *v)).collect(),
        int_values: ints.iter().map(|(k, v)| (k.to_string(), *v)).collect(),
        version_identifiers: versions.map(|vs| vs.into_iter().map(|v| Some(v.to_string())).collect()),
    }
}

fn map(pairs: &[(&str, i64)]) -> IdAllocator {
    IdAllocator::new(pairs.iter().map(|(k, v)| (k.to_string(), *v)).collect(), 0)
}

#[test]
fn word_probabilities_become_notes() {
    let o = object(&[("probability_overall", "one")], &[], &[], None);
    assert_eq!(probability_and_note(&o), (None, Some("Fixed encounter".to_string())));
    let o = object(&[("probability_overall", "25")], &[], &[], None);
    assert_eq!(probability_and_note(&o), (Some("25".to_string()), None));
    let o = object(&[("probability_overall", "only one"), ("note_markup", "After the credits")], &[], &[], None);
    assert_eq!(probability_and_note(&o), (None, Some("After the credits; One-time encounter".to_string())));
    let o = object(&[("note_markup", "Rain only")], &[], &[], None);
    assert_eq!(probability_and_note(&o), (None, Some("Rain only".to_string())));
}

#[test]
fn versions_covered_elsewhere_are_skipped() {
    let pokemon = map(&[("pikachu-default", 25)]);
    let areas = map(&[("route-1-area", 7)]);
    let methods = map(&[("walk", 1)]);
    let versions = map(&[("sword", 33), ("shield", 34), ("red", 1)]);
    let o = object(
        &[
            ("pokemon_form_identifier", "pikachu-default"),
            ("location_area_identifier", "route-1-area"),
            ("encounter_method_identifier", "Walk"),
            ("levels", "60 - 73"),
            ("rate_overall", "30%"),
        ],
        &[],
        &[],
        Some(vec!["red", "sword", "shield", "unknown"]),
    );
    match plan_pokedb_encounter(&o, &pokemon.known, &areas.known, &methods.known, &versions.known, &[1]) {
        EncounterOutcome::Insert(p) => {
            assert_eq!(p.pokemon_id, 25);
            assert_eq!(p.location_area_id, 7);
            assert_eq!(p.method_id, 1);
            assert_eq!(p.version_ids, vec![33, 34]);
            assert_eq!((p.min_level, p.max_level), (60, 73));
            assert_eq!(p.rarity, Some(30));
        }
        other => panic!("expected an insert, got {other:?}"),
    }
    assert!(matches!(
        plan_pokedb_encounter(&o, &pokemon.known, &areas.known, &methods.known, &versions.known, &[1, 33, 34]),
        EncounterOutcome::NoVersions
    ));
    let stray = object(&[("pokemon_form_identifier", "mew-default")], &[], &[], Some(vec!["red"]));
    assert!(matches!(
        plan_pokedb_encounter(&stray, &pokemon.known, &areas.known, &methods.known, &versions.known, &[]),
        EncounterOutcome::Unmapped
    ));
}

#[test]
fn za_alpha_spawns_carry_levels_and_note() {
    let pokemon = map(&[("pikachu", 25)]);
    let areas = map(&[("wild-zone-3", 900)]);
    let o = object(
        &[("pokemon_name", "pikachu"), ("area", "wild-zone-3"), ("alpha_levels", "60 - 73")],
        &[("is_alpha_spawn", true)],
        &[("min_level", 20), ("max_level", 24)],
        None,
    );
    let p = plan_za_encounter(&o, &pokemon.known, &areas.known).unwrap();
    assert_eq!((p.pokemon_id, p.area_id, p.min_level, p.max_level), (25, 900, 20, 24));
    assert_eq!(p.alpha_levels.as_deref(), Some("60 - 73"));
    assert_eq!(p.note.as_deref(), Some("Alpha spawn (100%)"));
    let o = object(&[("pokemon_name", "pikachu"), ("area", "wild-zone-3"), ("alpha_chance", "5%")], &[], &[], None);
    let p = plan_za_encounter(&o, &pokemon.known, &areas.known).unwrap();
    assert_eq!((p.min_level, p.max_level), (1, 1));
    assert_eq!(p.note.as_deref(), Some("Alpha chance: 5%"));
    let o = object(&[("pokemon_name", "mew"), ("area", "wild-zone-3")], &[], &[], None);
    assert!(plan_za_encounter(&o, &pokemon.known, &areas.known).is_none());
}

#[test]
fn zones_and_rows_reuse_existing_ids() {
    assert_eq!(existing_or_next(Some(12), 40), (12, false));
    assert_eq!(existing_or_next(None, 40), (41, true));
    let p = place_zone(Some(5), None, 100, 200);
    assert_eq!((p.location_id, p.new_location, p.area_id, p.new_area), (5, false, 200, true));
}

#[test]
fn level_fields_read_back() {
    assert_eq!(parse_level_range("60 - 73"), (60, 73));
    assert_eq!(parse_level_range("12-15"), (12, 15));
    assert_eq!(parse_level_range(" 8 "), (8, 8));
    assert_eq!(parse_level_range("\u{3000}9\t"), (9, 9));
    assert_eq!(parse_level_range("?"), (1, 1));
}

#[test]
fn details_with_only_blank_fields_are_empty() {
    let mut d = EncounterDetails::default();
    assert!(d.is_empty());
    d.visible = Some(false);
    d.rate_day = Some(String::new());
    assert!(d.is_empty());
    d.note = Some("x".to_string());
    assert!(!d.is_empty());
}

#[test]
fn za_plans_come_from_the_json_text() {
    let pokemon = map(&[("pikachu", 25), ("eevee", 133)]);
    let areas = map(&[("wild-zone-3", 900)]);
    let json = r#"[
        {"pokemon_name": "pikachu", "area": "wild-zone-3", "min_level": 20, "max_level": 24,
         "is_alpha_spawn": true, "alpha_levels": "60 - 73"},
        {"pokemon_name": "mew", "area": "wild-zone-3"},
        7,
        {"pokemon_name": "eevee", "area": "wild-zone-3", "alpha_chance": "5%", "min_level": 2.5}
    ]"#;
    let plans = plan_za_encounters(json, &pokemon.known, &areas.known).unwrap();
    assert_eq!(plans.len(), 4);
    let p = plans[0].as_ref().unwrap();
    assert_eq!((p.pokemon_id, p.area_id, p.min_level, p.max_level), (25, 900, 20, 24));
    assert_eq!(p.note.as_deref(), Some("Alpha spawn (100%)"));
    assert!(plans[1].is_none());
    assert!(plans[2].is_none());
    let e = plans[3].as_ref().unwrap();
    assert_eq!((e.pokemon_id, e.min_level, e.max_level), (133, 1, 1));
    assert_eq!(e.note.as_deref(), Some("Alpha chance: 5%"));
    assert!(plan_za_encounters("{\"not\": \"an array\"}", &pokemon.known, &areas.known).is_err());
    assert!(plan_za_encounters("[1,", &pokemon.known, &areas.known).is_err());
}

#[test]
fn pokedb_objects_keep_plain_fields() {
    let json = r#"[{"identifier": "sword", "name": null, "generation_id": 8, "is_dlc": false,
                    "version_identifiers": ["sword", 3, "shield"]}]"#;
    let os = pokedb_objects(json).unwrap();
    assert_eq!(os.len(), 1);
    let o = &os[0];
    assert_eq!(text(o, "identifier").as_deref(), Some("sword"));
    assert_eq!(text(o, "name"), None);
    assert_eq!(int_field(o, "generation_id"), Some(8));
    assert_eq!(
        o.version_identifiers,
        Some(vec![Some("sword".to_string()), None, Some("shield".to_string())])
    );
    assert!(!o.present_keys.contains(&"name".to_string()));
    assert!(o.present_keys.contains(&"is_dlc".to_string()));
    assert!(pokedb_objects("nonsense").is_err());
}

#[test]
fn close_names_are_ranked_and_cut() {
    let scored = vec![
        (700_000u64, "sword".to_string()),
        (900_000, "shield".to_string()),
        (400_000, "red".to_string()),
        (900_000, "scarlet".to_string()),
        (810_000, "violet".to_string()),
    ];
    assert_eq!(closest_names(&scored, 600_000, u64::MAX), vec!["shield", "scarlet", "violet", "sword"]);
    assert_eq!(closest_names(&scored, 800_000, 2), vec!["shield", "scarlet"]);
    assert_eq!(names_above(&scored, 500_000), vec!["sword", "shield", "scarlet", "violet"]);
}
