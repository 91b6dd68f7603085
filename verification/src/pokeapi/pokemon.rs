//! Creature, species and stat resources of the remote schema.

use vstd::prelude::*;

use crate::client::Client;
use crate::pokeapi::berries::BerryFlavor;
use crate::pokeapi::evolution::EvolutionChain;
use crate::pokeapi::games::{Generation, Pokedex, Version, VersionGroup};
use crate::pokeapi::items::Item;
use crate::pokeapi::locations::{LocationArea, PalParkArea};
use crate::pokeapi::moves::{Move, MoveBattleStyle, MoveDamageClass, MoveLearnMethod};
use crate::pokeapi::utility::{
    APIResource, Description, Effect, FlavorText, GenerationGameIndex, Language, Name,
    NamedAPIResource, VerboseEffect, VersionEncounterDetail, VersionGameIndex,
};
use crate::pokeapi::{api_loc_of, has_api_marker};
use crate::{Endpoint, Error, Id, Named};

verus! {

/// <https://pokeapi.co/docs/v2.html#abilities>
#[derive(Debug, PartialEq, Eq, Hash)]
pub struct Ability {
    pub id: i16,
    pub name: String,
    pub is_main_series: bool,
    pub generation: NamedAPIResource,
    pub names: Vec<Name>,
    pub effect_entries: Vec<VerboseEffect>,
    pub effect_changes: Vec<AbilityEffectChange>,
    pub flavor_text_entries: Vec<AbilityFlavorText>,
    pub pokemon: Vec<AbilityPokemon>,
}

/// <https://pokeapi.co/docs/v2.html#abilityeffectchange>
#[derive(Debug, PartialEq, Eq, Hash)]
pub struct AbilityEffectChange {
    pub effect_entries: Vec<Effect>,
    pub version_group: NamedAPIResource,
}

/// <https://pokeapi.co/docs/v2.html#abilityflavortext>
#[derive(Debug, PartialEq, Eq, Hash)]
pub struct AbilityFlavorText {
    pub flavor_text: String,
    pub language: NamedAPIResource,
    pub version_group: NamedAPIResource,
}

/// <https://pokeapi.co/docs/v2.html#abilitypokemon>
#[derive(Debug, PartialEq, Eq, Hash)]
pub struct AbilityPokemon {
    pub is_hidden: bool,
    pub slot: u8,
    pub pokemon: NamedAPIResource,
}

/// <https://pokeapi.co/docs/v2.html#characteristics>
#[derive(Debug, PartialEq, Eq, Hash)]
pub struct Characteristic {
    pub id: i16,
    pub gene_modulo: i8,
    pub possible_values: Vec<u8>,
    pub highest_stat: NamedAPIResource,
    pub descriptions: Vec<Description>,
}

/// <https://pokeapi.co/docs/v2.html#egg-groups>
#[derive(Debug, PartialEq, Eq, Hash)]
pub struct EggGroup {
    pub id: i16,
    pub name: String,
    pub names: Vec<Name>,
    pub pokemon_species: Vec<NamedAPIResource>,
}

/// <https://pokeapi.co/docs/v2.html#genders>
#[derive(Debug, PartialEq, Eq, Hash)]
pub struct Gender {
    pub id: i16,
    pub name: String,
    pub pokemon_species_details: Vec<PokemonSpeciesGender>,
    pub required_for_evolution: Vec<NamedAPIResource>,
}

/// <https://pokeapi.co/docs/v2.html#pokemonspeciesgender>
#[derive(Debug, PartialEq, Eq, Hash)]
pub struct PokemonSpeciesGender {
    pub rate: i8,
    pub pokemon_species: NamedAPIResource,
}

/// <https://pokeapi.co/docs/v2.html#growth-rates>
#[derive(Debug, PartialEq, Eq, Hash)]
pub struct GrowthRate {
    pub id: i16,
    pub name: String,
    pub formula: String,
    pub descriptions: Vec<Description>,
    pub levels: Vec<GrowthRateExperienceLevel>,
    pub pokemon_species: Vec<NamedAPIResource>,
}

/// <https://pokeapi.co/docs/v2.html#growthrateexperiencelevel>
#[derive(Debug, PartialEq, Eq, Hash)]
pub struct GrowthRateExperienceLevel {
    pub level: u8,
    pub experience: u32,
}

/// <https://pokeapi.co/docs/v2.html#natures>
#[derive(Debug, PartialEq, Eq, Hash)]
pub struct Nature {
    pub id: i16,
    pub name: String,
    pub decreased_stat: Option<NamedAPIResource>,
    pub increased_stat: Option<NamedAPIResource>,
    pub hates_flavor: Option<NamedAPIResource>,
    pub likes_flavor: Option<NamedAPIResource>,
    pub pokeathlon_stat_changes: Vec<NatureStatChange>,
    pub move_battle_style_preferences: Vec<MoveBattleStylePreference>,
    pub names: Vec<Name>,
}

/// <https://pokeapi.co/docs/v2.html#naturestatchange>
#[derive(Debug, PartialEq, Eq, Hash)]
pub struct NatureStatChange {
    pub max_change: i8,
    pub pokeathlon_stat: NamedAPIResource,
}

/// <https://pokeapi.co/docs/v2.html#movebattlestylepreference>
#[derive(Debug, PartialEq, Eq, Hash)]
pub struct MoveBattleStylePreference {
    pub low_hp_preference: u8,
    pub high_hp_preference: u8,
    pub move_battle_style: NamedAPIResource,
}

/// <https://pokeapi.co/docs/v2.html#pokeathlon-stats>
#[derive(Debug, PartialEq, Eq, Hash)]
pub struct PokeathlonStat {
    pub id: i16,
    pub name: String,
    pub names: Vec<Name>,
    pub affecting_natures: NaturePokeathlonStatAffectSets,
}

/// <https://pokeapi.co/docs/v2.html#naturepokeathlonstataffectsets>
#[derive(Debug, PartialEq, Eq, Hash)]
pub struct NaturePokeathlonStatAffectSets {
    pub increase: Vec<NaturePokeathlonStatAffect>,
    pub decrease: Vec<NaturePokeathlonStatAffect>,
}

/// <https://pokeapi.co/docs/v2.html#naturepokeathlonstataffect>
#[derive(Debug, PartialEq, Eq, Hash)]
pub struct NaturePokeathlonStatAffect {
    pub max_change: i8,
    pub nature: NamedAPIResource,
}

/// <https://pokeapi.co/docs/v2.html#pokemon>
#[derive(Debug, PartialEq, Eq, Hash)]
pub struct Pokemon {
    pub id: i16,
    pub name: String,
    pub base_experience: u16,
    pub height: u8,
    pub is_default: bool,
    pub order: u16,
    pub weight: u16,
    pub abilities: Vec<PokemonAbility>,
    pub forms: Vec<NamedAPIResource>,
    pub game_indices: Vec<VersionGameIndex>,
    pub held_items: Vec<PokemonHeldItem>,
    pub location_area_encounters: String,
    pub moves: Vec<PokemonMove>,
    pub sprites: PokemonSprites,
    pub species: NamedAPIResource,
    pub stats: Vec<PokemonStat>,
    pub types: Vec<PokemonType>,
}

impl Pokemon {
    /// Prepare the fetch of this creature's encounter list: the absolute
    /// request URL whose response body decodes to the list of
    /// `LocationAreaEncounter` records. The transport performs the fetch.
    pub fn get_encounters(&self, client: &Client) -> (r: Result<String, Error>)
        ensures
            match r {
                Ok(u) => has_api_marker(self.location_area_encounters@) && u@ == client.endpoint@
                    + api_loc_of(self.location_area_encounters@),
                Err(e) => !has_api_marker(self.location_area_encounters@) && e
                    == Error::MalformedReference,
            },
    {
        client.get_api_loc(&self.location_area_encounters)
    }
}

/// <https://pokeapi.co/docs/v2.html#pokemonability>
#[derive(Debug, PartialEq, Eq, Hash)]
pub struct PokemonAbility {
    pub is_hidden: bool,
    pub slot: u8,
    pub ability: NamedAPIResource,
}

/// <https://pokeapi.co/docs/v2.html#pokemontype>
#[derive(Debug, PartialEq, Eq, Hash)]
pub struct PokemonType {
    pub slot: u8,
    pub type_: NamedAPIResource,
}

/// <https://pokeapi.co/docs/v2.html#pokemonhelditem>
#[derive(Debug, PartialEq, Eq, Hash)]
pub struct PokemonHeldItem {
    pub item: NamedAPIResource,
    pub version_details: Vec<PokemonHeldItemVersion>,
}

/// <https://pokeapi.co/docs/v2.html#pokemonhelditemversion>
#[derive(Debug, PartialEq, Eq, Hash)]
pub struct PokemonHeldItemVersion {
    pub version: NamedAPIResource,
    pub rarity: u8,
}

/// <https://pokeapi.co/docs/v2.html#pokemonmove>
#[derive(Debug, PartialEq, Eq, Hash)]
pub struct PokemonMove {
    pub move_: NamedAPIResource,
    pub version_group_details: Vec<PokemonMoveVersion>,
}

/// <https://pokeapi.co/docs/v2.html#pokemonmoveversion>
#[derive(Debug, PartialEq, Eq, Hash)]
pub struct PokemonMoveVersion {
    pub move_learn_method: NamedAPIResource,
    pub version_group: NamedAPIResource,
    pub level_learned_at: u8,
}

/// <https://pokeapi.co/docs/v2.html#pokemonstat>
#[derive(Debug, PartialEq, Eq, Hash)]
pub struct PokemonStat {
    pub stat: NamedAPIResource,
    pub effort: u8,
    pub base_stat: u8,
}

/// <https://pokeapi.co/docs/v2.html#pokemonsprites>
#[derive(Debug, PartialEq, Eq, Hash)]
pub struct PokemonSprites {
    pub front_default: Option<String>,
    pub front_shiny: Option<String>,
    pub front_female: Option<String>,
    pub front_shiny_female: Option<String>,
    pub back_default: Option<String>,
    pub back_shiny: Option<String>,
    pub back_female: Option<String>,
    pub back_shiny_female: Option<String>,
}

/// <https://pokeapi.co/docs/v2.html#locationareaencounter>
#[derive(Debug, PartialEq, Eq, Hash)]
pub struct LocationAreaEncounter {
    pub location_area: NamedAPIResource,
    pub version_details: Vec<VersionEncounterDetail>,
}

/// <https://pokeapi.co/docs/v2.html#pokemon-colors>
#[derive(Debug, PartialEq, Eq, Hash)]
pub struct PokemonColor {
    pub id: i16,
    pub name: String,
    pub names: Vec<Name>,
    pub pokemon_species: Vec<NamedAPIResource>,
}

/// <https://pokeapi.co/docs/v2.html#pokemon-forms>
#[derive(Debug, PartialEq, Eq, Hash)]
pub struct PokemonForm {
    pub id: i16,
    pub name: String,
    pub order: u16,
    pub form_order: u16,
    pub is_default: bool,
    pub is_battle_only: bool,
    pub is_mega: bool,
    pub form_name: String,
    pub pokemon: NamedAPIResource,
    pub sprites: PokemonFormSprites,
    pub version_group: NamedAPIResource,
    pub names: Vec<Name>,
    pub form_names: Vec<Name>,
}

/// <https://pokeapi.co/docs/v2.html#pokemonformsprites>
#[derive(Debug, PartialEq, Eq, Hash)]
pub struct PokemonFormSprites {
    pub front_default: Option<String>,
    pub front_shiny: Option<String>,
    pub back_default: Option<String>,
    pub back_shiny: Option<String>,
}

/// <https://pokeapi.co/docs/v2.html#pokemon-habitats>
#[derive(Debug, PartialEq, Eq, Hash)]
pub struct PokemonHabitat {
    pub id: i16,
    pub name: String,
    pub names: Vec<Name>,
    pub pokemon_species: Vec<NamedAPIResource>,
}

/// <https://pokeapi.co/docs/v2.html#pokemon-shapes>
#[derive(Debug, PartialEq, Eq, Hash)]
pub struct PokemonShape {
    pub id: i16,
    pub name: String,
    pub awesome_names: Vec<AwesomeName>,
    pub names: Vec<Name>,
    pub pokemon_species: Vec<NamedAPIResource>,
}

/// <https://pokeapi.co/docs/v2.html#awesomename>
#[derive(Debug, PartialEq, Eq, Hash)]
pub struct AwesomeName {
    pub awesome_name: String,
    pub language: NamedAPIResource,
}

/// <https://pokeapi.co/docs/v2.html#pokemon-species>
#[derive(Debug, PartialEq, Eq, Hash)]
pub struct PokemonSpecies {
    pub id: i16,
    pub name: String,
    pub order: u16,
    pub gender_rate: i8,
    pub capture_rate: u8,
    pub base_happiness: u8,
    pub is_baby: bool,
    pub hatch_counter: u8,
    pub has_gender_differences: bool,
    pub forms_switchable: bool,
    pub growth_rate: NamedAPIResource,
    pub pokedex_numbers: Vec<PokemonSpeciesDexEntry>,
    pub egg_groups: Vec<NamedAPIResource>,
    pub color: NamedAPIResource,
    pub shape: NamedAPIResource,
    pub evolves_from_species: Option<NamedAPIResource>,
    pub evolution_chain: APIResource,
    pub habitat: Option<NamedAPIResource>,
    pub generation: NamedAPIResource,
    pub names: Vec<Name>,
    pub pal_park_encounters: Vec<PalParkEncounterArea>,
    pub flavor_text_entries: Vec<FlavorText>,
    pub form_descriptions: Vec<Description>,
    pub genera: Vec<Genus>,
    pub varieties: Vec<PokemonSpeciesVariety>,
}

/// <https://pokeapi.co/docs/v2.html#genus>
#[derive(Debug, PartialEq, Eq, Hash)]
pub struct Genus {
    pub genus: String,
    pub language: NamedAPIResource,
}

/// <https://pokeapi.co/docs/v2.html#pokemonspeciesdexentry>
#[derive(Debug, PartialEq, Eq, Hash)]
pub struct PokemonSpeciesDexEntry {
    pub entry_number: u16,
    pub pokedex: NamedAPIResource,
}

/// <https://pokeapi.co/docs/v2.html#palparkencounterarea>
#[derive(Debug, PartialEq, Eq, Hash)]
pub struct PalParkEncounterArea {
    pub base_score: u8,
    pub rate: u8,
    pub area: NamedAPIResource,
}

/// <https://pokeapi.co/docs/v2.html#pokemonspeciesvariety>
#[derive(Debug, PartialEq, Eq, Hash)]
pub struct PokemonSpeciesVariety {
    pub is_default: bool,
    pub pokemon: NamedAPIResource,
}

/// <https://pokeapi.co/docs/v2.html#stats>
#[derive(Debug, PartialEq, Eq, Hash)]
pub struct Stat {
    pub id: i16,
    pub name: String,
    pub game_index: i16,
    pub is_battle_only: bool,
    pub affecting_moves: MoveStatAffectSets,
    pub affecting_natures: NatureStatAffectSets,
    pub characteristics: Vec<APIResource>,
    pub move_damage_class: Option<NamedAPIResource>,
    pub names: Vec<Name>,
}

/// <https://pokeapi.co/docs/v2.html#movestataffectsets>
#[derive(Debug, PartialEq, Eq, Hash)]
pub struct MoveStatAffectSets {
    pub increase: Vec<MoveStatAffect>,
    pub decrease: Vec<MoveStatAffect>,
}

/// <https://pokeapi.co/docs/v2.html#movestataffect>
#[derive(Debug, PartialEq, Eq, Hash)]
pub struct MoveStatAffect {
    pub change: i8,
    pub move_: NamedAPIResource,
}

/// <https://pokeapi.co/docs/v2.html#naturestataffectsets>
#[derive(Debug, PartialEq, Eq, Hash)]
pub struct NatureStatAffectSets {
    pub increase: Vec<NamedAPIResource>,
    pub decrease: Vec<NamedAPIResource>,
}

/// <https://pokeapi.co/docs/v2.html#types>
#[derive(Debug, PartialEq, Eq, Hash)]
pub struct Type {
    pub id: i16,
    pub name: String,
    pub damage_relations: TypeRelations,
    pub game_indices: Vec<GenerationGameIndex>,
    pub generation: NamedAPIResource,
    pub move_damage_class: Option<NamedAPIResource>,
    pub names: Vec<Name>,
    pub pokemon: Vec<TypePokemon>,
    pub moves: Vec<NamedAPIResource>,
}

/// <https://pokeapi.co/docs/v2.html#typepokemon>
#[derive(Debug, PartialEq, Eq, Hash)]
pub struct TypePokemon {
    pub slot: u8,
    pub pokemon: NamedAPIResource,
}

/// <https://pokeapi.co/docs/v2.html#typerelations>
#[derive(Debug, PartialEq, Eq, Hash)]
pub struct TypeRelations {
    pub no_damage_to: Vec<NamedAPIResource>,
    pub half_damage_to: Vec<NamedAPIResource>,
    pub double_damage_to: Vec<NamedAPIResource>,
    pub no_damage_from: Vec<NamedAPIResource>,
    pub half_damage_from: Vec<NamedAPIResource>,
    pub double_damage_from: Vec<NamedAPIResource>,
}

impl Id for Pokemon {
    open spec fn id_ok(&self) -> bool {
        true
    }

    open spec fn id_spec(&self) -> int {
        self.id as int
    }

    fn id(&self) -> (r: i16) {
        self.id
    }
}

impl Named for Pokemon {
    open spec fn name_spec(&self) -> Seq<char> {
        self.name@
    }

    fn name(&self) -> (r: &String) {
        &self.name
    }
}

impl Id for PokemonSpecies {
    open spec fn id_ok(&self) -> bool {
        true
    }

    open spec fn id_spec(&self) -> int {
        self.id as int
    }

    fn id(&self) -> (r: i16) {
        self.id
    }
}

impl Named for PokemonSpecies {
    open spec fn name_spec(&self) -> Seq<char> {
        self.name@
    }

    fn name(&self) -> (r: &String) {
        &self.name
    }
}

impl Id for GrowthRate {
    open spec fn id_ok(&self) -> bool {
        true
    }

    open spec fn id_spec(&self) -> int {
        self.id as int
    }

    fn id(&self) -> (r: i16) {
        self.id
    }
}

impl Named for GrowthRate {
    open spec fn name_spec(&self) -> Seq<char> {
        self.name@
    }

    fn name(&self) -> (r: &String) {
        &self.name
    }
}

impl Id for Stat {
    open spec fn id_ok(&self) -> bool {
        true
    }

    open spec fn id_spec(&self) -> int {
        self.id as int
    }

    fn id(&self) -> (r: i16) {
        self.id
    }
}

impl Named for Stat {
    open spec fn name_spec(&self) -> Seq<char> {
        self.name@
    }

    fn name(&self) -> (r: &String) {
        &self.name
    }
}

impl Id for Type {
    open spec fn id_ok(&self) -> bool {
        true
    }

    open spec fn id_spec(&self) -> int {
        self.id as int
    }

    fn id(&self) -> (r: i16) {
        self.id
    }
}

impl Named for Type {
    open spec fn name_spec(&self) -> Seq<char> {
        self.name@
    }

    fn name(&self) -> (r: &String) {
        &self.name
    }
}

impl Endpoint for Pokemon {
    open spec fn endpoint_spec() -> Seq<char> {
        "pokemon"@
    }

    fn endpoint() -> (r: &'static str) {
        "pokemon"
    }
}

impl Endpoint for PokemonSpecies {
    open spec fn endpoint_spec() -> Seq<char> {
        "pokemon-species"@
    }

    fn endpoint() -> (r: &'static str) {
        "pokemon-species"
    }
}

impl Endpoint for GrowthRate {
    open spec fn endpoint_spec() -> Seq<char> {
        "growth-rate"@
    }

    fn endpoint() -> (r: &'static str) {
        "growth-rate"
    }
}

impl Endpoint for Stat {
    open spec fn endpoint_spec() -> Seq<char> {
        "stat"@
    }

    fn endpoint() -> (r: &'static str) {
        "stat"
    }
}

impl Endpoint for Type {
    open spec fn endpoint_spec() -> Seq<char> {
        "type"@
    }

    fn endpoint() -> (r: &'static str) {
        "type"
    }
}

impl Endpoint for Ability {
    open spec fn endpoint_spec() -> Seq<char> {
        "ability"@
    }

    fn endpoint() -> (r: &'static str) {
        "ability"
    }
}


impl Named for Ability {
    open spec fn name_spec(&self) -> Seq<char> {
        self.name@
    }

    fn name(&self) -> (r: &String) {
        &self.name
    }
}

impl Id for Ability {
    open spec fn id_ok(&self) -> bool {
        true
    }

    open spec fn id_spec(&self) -> int {
        self.id as int
    }

    fn id(&self) -> (r: i16) {
        self.id
    }
}

impl Id for Characteristic {
    open spec fn id_ok(&self) -> bool {
        true
    }

    open spec fn id_spec(&self) -> int {
        self.id as int
    }

    fn id(&self) -> (r: i16) {
        self.id
    }
}

impl Named for EggGroup {
    open spec fn name_spec(&self) -> Seq<char> {
        self.name@
    }

    fn name(&self) -> (r: &String) {
        &self.name
    }
}

impl Id for EggGroup {
    open spec fn id_ok(&self) -> bool {
        true
    }

    open spec fn id_spec(&self) -> int {
        self.id as int
    }

    fn id(&self) -> (r: i16) {
        self.id
    }
}

impl Named for Gender {
    open spec fn name_spec(&self) -> Seq<char> {
        self.name@
    }

    fn name(&self) -> (r: &String) {
        &self.name
    }
}

impl Id for Gender {
    open spec fn id_ok(&self) -> bool {
        true
    }

    open spec fn id_spec(&self) -> int {
        self.id as int
    }

    fn id(&self) -> (r: i16) {
        self.id
    }
}

impl Named for Nature {
    open spec fn name_spec(&self) -> Seq<char> {
        self.name@
    }

    fn name(&self) -> (r: &String) {
        &self.name
    }
}

impl Id for Nature {
    open spec fn id_ok(&self) -> bool {
        true
    }

    open spec fn id_spec(&self) -> int {
        self.id as int
    }

    fn id(&self) -> (r: i16) {
        self.id
    }
}

impl Named for PokeathlonStat {
    open spec fn name_spec(&self) -> Seq<char> {
        self.name@
    }

    fn name(&self) -> (r: &String) {
        &self.name
    }
}

impl Id for PokeathlonStat {
    open spec fn id_ok(&self) -> bool {
        true
    }

    open spec fn id_spec(&self) -> int {
        self.id as int
    }

    fn id(&self) -> (r: i16) {
        self.id
    }
}

impl Named for PokemonColor {
    open spec fn name_spec(&self) -> Seq<char> {
        self.name@
    }

    fn name(&self) -> (r: &String) {
        &self.name
    }
}

impl Id for PokemonColor {
    open spec fn id_ok(&self) -> bool {
        true
    }

    open spec fn id_spec(&self) -> int {
        self.id as int
    }

    fn id(&self) -> (r: i16) {
        self.id
    }
}

impl Named for PokemonForm {
    open spec fn name_spec(&self) -> Seq<char> {
        self.name@
    }

    fn name(&self) -> (r: &String) {
        &self.name
    }
}

impl Id for PokemonForm {
    open spec fn id_ok(&self) -> bool {
        true
    }

    open spec fn id_spec(&self) -> int {
        self.id as int
    }

    fn id(&self) -> (r: i16) {
        self.id
    }
}

impl Named for PokemonHabitat {
    open spec fn name_spec(&self) -> Seq<char> {
        self.name@
    }

    fn name(&self) -> (r: &String) {
        &self.name
    }
}

impl Id for PokemonHabitat {
    open spec fn id_ok(&self) -> bool {
        true
    }

    open spec fn id_spec(&self) -> int {
        self.id as int
    }

    fn id(&self) -> (r: i16) {
        self.id
    }
}

impl Named for PokemonShape {
    open spec fn name_spec(&self) -> Seq<char> {
        self.name@
    }

    fn name(&self) -> (r: &String) {
        &self.name
    }
}

impl Id for PokemonShape {
    open spec fn id_ok(&self) -> bool {
        true
    }

    open spec fn id_spec(&self) -> int {
        self.id as int
    }

    fn id(&self) -> (r: i16) {
        self.id
    }
}

impl Endpoint for Characteristic {
    open spec fn endpoint_spec() -> Seq<char> {
        "characteristic"@
    }

    fn endpoint() -> (r: &'static str) {
        "characteristic"
    }
}

impl Endpoint for EggGroup {
    open spec fn endpoint_spec() -> Seq<char> {
        "egg-group"@
    }

    fn endpoint() -> (r: &'static str) {
        "egg-group"
    }
}

impl Endpoint for Gender {
    open spec fn endpoint_spec() -> Seq<char> {
        "gender"@
    }

    fn endpoint() -> (r: &'static str) {
        "gender"
    }
}

impl Endpoint for Nature {
    open spec fn endpoint_spec() -> Seq<char> {
        "nature"@
    }

    fn endpoint() -> (r: &'static str) {
        "nature"
    }
}

impl Endpoint for PokeathlonStat {
    open spec fn endpoint_spec() -> Seq<char> {
        "pokeathlon-stat"@
    }

    fn endpoint() -> (r: &'static str) {
        "pokeathlon-stat"
    }
}

impl Endpoint for PokemonColor {
    open spec fn endpoint_spec() -> Seq<char> {
        "pokemon-color"@
    }

    fn endpoint() -> (r: &'static str) {
        "pokemon-color"
    }
}

impl Endpoint for PokemonForm {
    open spec fn endpoint_spec() -> Seq<char> {
        "pokemon-form"@
    }

    fn endpoint() -> (r: &'static str) {
        "pokemon-form"
    }
}

impl Endpoint for PokemonHabitat {
    open spec fn endpoint_spec() -> Seq<char> {
        "pokemon-habitat"@
    }

    fn endpoint() -> (r: &'static str) {
        "pokemon-habitat"
    }
}

impl Endpoint for PokemonShape {
    open spec fn endpoint_spec() -> Seq<char> {
        "pokemon-shape"@
    }

    fn endpoint() -> (r: &'static str) {
        "pokemon-shape"
    }
}

} // verus!
