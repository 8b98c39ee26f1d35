//! The records the library reads from and returns about Pokémon, games and
//! the user's collection.
use vstd::prelude::*;

verus! {

/// A species with everything `pokemon show` reports about it.
#[derive(Debug, Clone)]
pub struct Species {
    pub id: i64,
    pub name: String,
    pub display_name: String,
    pub generation: i64,
    pub types: Vec<String>,
    pub capture_rate: i64,
    pub is_baby: bool,
    pub is_legendary: bool,
    pub is_mythical: bool,
    pub evolves_from: Option<String>,
    pub genus: Option<String>,
    pub egg_groups: Vec<String>,
    pub stats: Option<PokemonStats>,
    pub abilities: Vec<AbilityInfo>,
}

/// A species as listed in search results and listings.
#[derive(Debug, Clone)]
pub struct SpeciesSummary {
    pub id: i64,
    pub name: String,
    pub display_name: String,
    pub types: Vec<String>,
    pub generation: i64,
}

/// One form of a Pokémon (regional, mega, gigantamax, cosmetic, ...).
#[derive(Debug, Clone)]
pub struct PokemonForm {
    pub id: i64,
    pub pokemon_id: i64,
    pub name: String,
    pub display_name: String,
    pub form_name: Option<String>,
    pub is_default: bool,
    pub is_mega: bool,
    pub is_battle_only: bool,
    pub types: Vec<String>,
}

/// Base stats of a Pokémon and their total.
#[derive(Debug, Clone)]
pub struct PokemonStats {
    pub pokemon_name: String,
    pub hp: i64,
    pub attack: i64,
    pub defense: i64,
    pub special_attack: i64,
    pub special_defense: i64,
    pub speed: i64,
    pub total: i64,
}

/// A node of an evolution tree.
#[derive(Debug)]
pub struct EvolutionNode {
    pub species_id: i64,
    pub species_name: String,
    pub display_name: String,
    pub methods: Vec<EvolutionMethod>,
    pub children: Vec<EvolutionNode>,
}

/// One way a species evolves into another.
#[derive(Debug, Clone)]
pub struct EvolutionMethod {
    pub trigger: String,
    pub trigger_detail: Option<String>,
    pub location: Option<String>,
    pub item: Option<String>,
    pub form_requirement: Option<String>,
}

/// A type, by slug and display name.
#[derive(Debug, Clone)]
pub struct TypeInfo {
    pub name: String,
    pub display_name: String,
}

/// Offensive and defensive matchups of a type.
#[derive(Debug, Clone)]
pub struct TypeMatchups {
    pub matchup_type: String,
    pub display_name: String,
    pub attacking: TypeEffectiveness,
    pub defending: TypeEffectiveness,
}

/// Types grouped by damage factor: double, half and none.
#[derive(Debug, Clone)]
pub struct TypeEffectiveness {
    pub super_effective: Vec<String>,
    pub not_very_effective: Vec<String>,
    pub no_effect: Vec<String>,
}

/// Where and how a Pokémon can be encountered.
#[derive(Debug, Clone)]
pub struct Encounter {
    pub pokemon_name: String,
    pub species_slug: String,
    pub location: String,
    pub area: String,
    pub game: String,
    pub game_slug: String,
    pub method: String,
    pub min_level: Option<i64>,
    pub max_level: Option<i64>,
    pub rarity: Option<i64>,
    pub conditions: Vec<String>,
    pub details: Option<EncounterDetails>,
}

/// Game-specific encounter data: rates, time and weather availability,
/// terrain, spawn weights, group spawns, alpha levels and raid data.
#[derive(Debug, Clone, Default)]
pub struct EncounterDetails {
    pub rate_overall: Option<String>,
    pub rate_morning: Option<String>,
    pub rate_day: Option<String>,
    pub rate_night: Option<String>,
    pub during_any_time: Option<bool>,
    pub during_morning: Option<bool>,
    pub during_day: Option<bool>,
    pub during_evening: Option<bool>,
    pub during_night: Option<bool>,
    pub while_weather_overall: Option<bool>,
    pub weather_clear_rate: Option<String>,
    pub weather_cloudy_rate: Option<String>,
    pub weather_rain_rate: Option<String>,
    pub weather_thunderstorm_rate: Option<String>,
    pub weather_snow_rate: Option<String>,
    pub weather_blizzard_rate: Option<String>,
    pub weather_harshsunlight_rate: Option<String>,
    pub weather_sandstorm_rate: Option<String>,
    pub weather_fog_rate: Option<String>,
    pub on_terrain_land: Option<bool>,
    pub on_terrain_watersurface: Option<bool>,
    pub on_terrain_underwater: Option<bool>,
    pub probability_overall: Option<String>,
    pub group_rate: Option<String>,
    pub group_pokemon: Option<String>,
    pub alpha_levels: Option<String>,
    pub tera_raid_star_level: Option<String>,
    pub max_raid_perfect_ivs: Option<String>,
    pub max_raid_rate_1_star: Option<String>,
    pub max_raid_rate_2_star: Option<String>,
    pub max_raid_rate_3_star: Option<String>,
    pub max_raid_rate_4_star: Option<String>,
    pub max_raid_rate_5_star: Option<String>,
    pub hidden_ability_possible: Option<bool>,
    pub visible: Option<bool>,
    pub note: Option<String>,
}

/// A text field that carries nothing: absent or empty.
pub open spec fn blank_text(o: Option<String>) -> bool {
    match o {
        Some(t) => t@.len() == 0,
        None => true,
    }
}

/// A flag that carries nothing: absent or false.
pub open spec fn blank_flag(o: Option<bool>) -> bool {
    o is None || o == Some(false)
}

/// Tests [`blank_text`].
pub fn text_blank(o: &Option<String>) -> (b: bool)
    ensures
        b == blank_text(*o),
{
    match o {
        Some(t) => t.as_str().unicode_len() == 0,
        None => true,
    }
}

/// Tests [`blank_flag`].
pub fn flag_blank(o: &Option<bool>) -> (b: bool)
    ensures
        b == blank_flag(*o),
{
    match o {
        Some(v) => !*v,
        None => true,
    }
}

/// Every field of the details is absent, false or empty.
pub open spec fn details_empty(d: EncounterDetails) -> bool {
    &&& blank_text(d.rate_overall)
    &&& blank_text(d.rate_morning)
    &&& blank_text(d.rate_day)
    &&& blank_text(d.rate_night)
    &&& blank_flag(d.during_any_time)
    &&& blank_flag(d.during_morning)
    &&& blank_flag(d.during_day)
    &&& blank_flag(d.during_evening)
    &&& blank_flag(d.during_night)
    &&& blank_flag(d.while_weather_overall)
    &&& blank_text(d.weather_clear_rate)
    &&& blank_text(d.weather_cloudy_rate)
    &&& blank_text(d.weather_rain_rate)
    &&& blank_text(d.weather_thunderstorm_rate)
    &&& blank_text(d.weather_snow_rate)
    &&& blank_text(d.weather_blizzard_rate)
    &&& blank_text(d.weather_harshsunlight_rate)
    &&& blank_text(d.weather_sandstorm_rate)
    &&& blank_text(d.weather_fog_rate)
    &&& blank_flag(d.on_terrain_land)
    &&& blank_flag(d.on_terrain_watersurface)
    &&& blank_flag(d.on_terrain_underwater)
    &&& blank_text(d.probability_overall)
    &&& blank_text(d.group_rate)
    &&& blank_text(d.group_pokemon)
    &&& blank_text(d.alpha_levels)
    &&& blank_text(d.tera_raid_star_level)
    &&& blank_text(d.max_raid_perfect_ivs)
    &&& blank_text(d.max_raid_rate_1_star)
    &&& blank_text(d.max_raid_rate_2_star)
    &&& blank_text(d.max_raid_rate_3_star)
    &&& blank_text(d.max_raid_rate_4_star)
    &&& blank_text(d.max_raid_rate_5_star)
    &&& blank_flag(d.hidden_ability_possible)
    &&& blank_flag(d.visible)
    &&& blank_text(d.note)
}

impl EncounterDetails {
    /// True when every field is absent, false or empty, so the row adds nothing.
    pub fn is_empty(&self) -> (r: bool)
        ensures
            r == details_empty(*self),
    {
        text_blank(&self.rate_overall)
            && text_blank(&self.rate_morning)
            && text_blank(&self.rate_day)
            && text_blank(&self.rate_night)
            && flag_blank(&self.during_any_time)
            && flag_blank(&self.during_morning)
            && flag_blank(&self.during_day)
            && flag_blank(&self.during_evening)
            && flag_blank(&self.during_night)
            && flag_blank(&self.while_weather_overall)
            && text_blank(&self.weather_clear_rate)
            && text_blank(&self.weather_cloudy_rate)
            && text_blank(&self.weather_rain_rate)
            && text_blank(&self.weather_thunderstorm_rate)
            && text_blank(&self.weather_snow_rate)
            && text_blank(&self.weather_blizzard_rate)
            && text_blank(&self.weather_harshsunlight_rate)
            && text_blank(&self.weather_sandstorm_rate)
            && text_blank(&self.weather_fog_rate)
            && flag_blank(&self.on_terrain_land)
            && flag_blank(&self.on_terrain_watersurface)
            && flag_blank(&self.on_terrain_underwater)
            && text_blank(&self.probability_overall)
            && text_blank(&self.group_rate)
            && text_blank(&self.group_pokemon)
            && text_blank(&self.alpha_levels)
            && text_blank(&self.tera_raid_star_level)
            && text_blank(&self.max_raid_perfect_ivs)
            && text_blank(&self.max_raid_rate_1_star)
            && text_blank(&self.max_raid_rate_2_star)
            && text_blank(&self.max_raid_rate_3_star)
            && text_blank(&self.max_raid_rate_4_star)
            && text_blank(&self.max_raid_rate_5_star)
            && flag_blank(&self.hidden_ability_possible)
            && flag_blank(&self.visible)
            && text_blank(&self.note)
    }
}

/// A move a Pokémon can learn, with how and where.
#[derive(Debug, Clone)]
pub struct PokemonMove {
    pub move_name: String,
    pub display_name: String,
    pub move_type: Option<String>,
    pub power: Option<i64>,
    pub accuracy: Option<i64>,
    pub pp: Option<i64>,
    pub damage_class: String,
    pub learn_method: String,
    pub level: i64,
    pub game: String,
}

/// A Pokédex and how many species it lists.
#[derive(Debug, Clone)]
pub struct PokedexInfo {
    pub id: i64,
    pub name: String,
    pub display_name: String,
    pub region: Option<String>,
    pub species_count: i64,
}

/// One entry of a Pokédex.
#[derive(Debug, Clone)]
pub struct DexEntry {
    pub pokedex_number: i64,
    pub species_id: i64,
    pub name: String,
    pub display_name: String,
}

/// Completion of a Pokédex. The percentage is kept in hundredths of a
/// percent, i.e. rounded to two decimals.
#[derive(Debug, Clone)]
pub struct DexProgress {
    pub dex_name: String,
    pub total: i64,
    pub caught: i64,
    pub percentage_hundredths: i64,
    pub entries: Vec<DexProgressEntry>,
}

/// One Pokédex entry with whether the user has caught it.
#[derive(Debug, Clone)]
pub struct DexProgressEntry {
    pub pokedex_number: i64,
    pub species_id: i64,
    pub name: String,
    pub display_name: String,
    pub caught: bool,
}

/// A game and its Pokémon HOME connectivity.
#[derive(Debug, Clone)]
pub struct GameInfo {
    pub id: i64,
    pub name: String,
    pub connects_to_home: bool,
    pub transfer_direction: Option<String>,
    pub generation: Option<i64>,
    pub region: Option<String>,
    pub display_name: Option<String>,
}

/// One Pokémon the user owns.
#[derive(Debug, Clone)]
pub struct CollectionEntry {
    pub id: i64,
    pub species_id: i64,
    pub species_name: String,
    pub display_name: String,
    pub form_name: Option<String>,
    pub game: String,
    pub shiny: bool,
    pub in_home: bool,
    pub is_alpha: bool,
    pub status: String,
    pub method: Option<String>,
    pub nickname: Option<String>,
    pub notes: Option<String>,
    pub created_at: String,
    pub updated_at: String,
}

/// Counts over the user's collection.
#[derive(Debug, Clone)]
pub struct CollectionStats {
    pub total_entries: i64,
    pub unique_species: i64,
    pub shiny_count: i64,
    pub in_home_count: i64,
    pub by_status: Vec<StatusCount>,
    pub by_game: Vec<GameCount>,
}

/// Number of entries with a status.
#[derive(Debug, Clone)]
pub struct StatusCount {
    pub status: String,
    pub count: i64,
}

/// Number of entries from a game.
#[derive(Debug, Clone)]
pub struct GameCount {
    pub game: String,
    pub count: i64,
}

/// What the user holds in Pokémon HOME.
#[derive(Debug, Clone)]
pub struct HomeStatus {
    pub total_in_home: i64,
    pub unique_species_in_home: i64,
    pub shiny_in_home: i64,
    pub by_game_origin: Vec<GameCount>,
}

/// A nature and the stats it raises and lowers.
#[derive(Debug, Clone)]
pub struct NatureInfo {
    pub name: String,
    pub display_name: String,
    pub increased_stat: Option<String>,
    pub decreased_stat: Option<String>,
}

/// An ability a Pokémon can have.
#[derive(Debug, Clone)]
pub struct AbilityInfo {
    pub name: String,
    pub display_name: String,
    pub is_hidden: bool,
    pub short_effect: Option<String>,
}

/// A species that is not in HOME yet, and whether it is owned elsewhere.
#[derive(Debug, Clone)]
pub struct HomeMissingEntry {
    pub pokedex_number: i64,
    pub species_id: i64,
    pub name: String,
    pub display_name: String,
    pub owned_elsewhere: bool,
}

/// A search hit; the score is in hundredths (1.00 is an exact match).
#[derive(Debug, Clone)]
pub struct SearchResult {
    pub species: SpeciesSummary,
    pub score_hundredths: i64,
}

/// An item and the Pokémon that hold it in the wild.
#[derive(Debug, Clone)]
pub struct ItemInfo {
    pub id: i64,
    pub name: String,
    pub display_name: String,
    pub category: String,
    pub cost: Option<i64>,
    pub short_effect: Option<String>,
    pub effect: Option<String>,
    pub held_by: Vec<ItemHolder>,
}

/// A Pokémon holding an item in a game, with the chance in percent.
#[derive(Debug, Clone)]
pub struct ItemHolder {
    pub pokemon_name: String,
    pub pokemon_slug: String,
    pub rarity: i64,
    pub game: String,
    pub game_slug: String,
}

/// A species encounterable in a game and by which methods.
#[derive(Debug, Clone)]
pub struct GameEncounterSummary {
    pub species_id: i64,
    pub name: String,
    pub display_name: String,
    pub encounter_count: i64,
    pub methods: Vec<String>,
}

} // verus!
