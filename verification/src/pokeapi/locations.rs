//! Location and region resources of the remote schema.

use vstd::prelude::*;

use crate::pokeapi::encounters::EncounterMethod;
use crate::pokeapi::games::{Generation, Pokedex, Version, VersionGroup};
use crate::pokeapi::pokemon::{Pokemon, PokemonSpecies};
use crate::pokeapi::utility::{
    GenerationGameIndex, Name, NamedAPIResource, VersionEncounterDetail,
};
use crate::{Endpoint, Id, Named};

verus! {

/// <https://pokeapi.co/docs/v2.html#locations>
#[derive(Debug, PartialEq, Eq, Hash)]
pub struct Location {
    pub id: i16,
    pub name: String,
    pub region: Option<NamedAPIResource>,
    pub names: Vec<Name>,
    pub game_indices: Vec<GenerationGameIndex>,
    pub areas: Vec<NamedAPIResource>,
}

/// <https://pokeapi.co/docs/v2.html#location-areas>
#[derive(Debug, PartialEq, Eq, Hash)]
pub struct LocationArea {
    pub id: i16,
    pub name: String,
    pub game_index: i16,
    pub encounter_method_rates: Vec<EncouterMethodRate>,
    pub location: NamedAPIResource,
    pub names: Vec<Name>,
    pub pokemon_encounters: Vec<PokemonEncouter>,
}

/// <https://pokeapi.co/docs/v2.html#encountermethodrate>
#[derive(Debug, PartialEq, Eq, Hash)]
pub struct EncouterMethodRate {
    pub encounter_method: NamedAPIResource,
    pub version_details: Vec<EncounterVersionDetails>,
}

/// <https://pokeapi.co/docs/v2.html#encounterversiondetails>
#[derive(Debug, PartialEq, Eq, Hash)]
pub struct EncounterVersionDetails {
    pub rate: u8,
    pub version: NamedAPIResource,
}

/// <https://pokeapi.co/docs/v2.html#pokemonencounter>
#[derive(Debug, PartialEq, Eq, Hash)]
pub struct PokemonEncouter {
    pub pokemon: NamedAPIResource,
    pub version_details: Vec<VersionEncounterDetail>,
}

/// <https://pokeapi.co/docs/v2.html#pal-park-areas>
#[derive(Debug, PartialEq, Eq, Hash)]
pub struct PalParkArea {
    pub id: i16,
    pub name: String,
    pub names: Vec<Name>,
    pub pokemon_encounters: Vec<PalParkEncounterSpecies>,
}

/// <https://pokeapi.co/docs/v2.html#palparkencounterspecies>
#[derive(Debug, PartialEq, Eq, Hash)]
pub struct PalParkEncounterSpecies {
    pub base_score: u8,
    pub rate: u8,
    pub pokemon_species: NamedAPIResource,
}

/// <https://pokeapi.co/docs/v2.html#regions>
#[derive(Debug, PartialEq, Eq, Hash)]
pub struct Region {
    pub id: i16,
    pub locations: Vec<NamedAPIResource>,
    pub name: String,
    pub names: Vec<Name>,
    pub main_generation: NamedAPIResource,
    pub pokedexes: Vec<NamedAPIResource>,
    pub version_groups: Vec<NamedAPIResource>,
}

impl Id for Location {
    open spec fn id_ok(&self) -> bool {
        true
    }

    open spec fn id_spec(&self) -> int {
        self.id as int
    }

    fn id(&self) -> (r: i16) {
        self.id
    }
}

impl Named for Location {
    open spec fn name_spec(&self) -> Seq<char> {
        self.name@
    }

    fn name(&self) -> (r: &String) {
        &self.name
    }
}

impl Endpoint for Location {
    open spec fn endpoint_spec() -> Seq<char> {
        "location"@
    }

    fn endpoint() -> (r: &'static str) {
        "location"
    }
}

impl Endpoint for LocationArea {
    open spec fn endpoint_spec() -> Seq<char> {
        "location-area"@
    }

    fn endpoint() -> (r: &'static str) {
        "location-area"
    }
}

impl Endpoint for PalParkArea {
    open spec fn endpoint_spec() -> Seq<char> {
        "pal-park-area"@
    }

    fn endpoint() -> (r: &'static str) {
        "pal-park-area"
    }
}

impl Endpoint for Region {
    open spec fn endpoint_spec() -> Seq<char> {
        "region"@
    }

    fn endpoint() -> (r: &'static str) {
        "region"
    }
}


impl Named for LocationArea {
    open spec fn name_spec(&self) -> Seq<char> {
        self.name@
    }

    fn name(&self) -> (r: &String) {
        &self.name
    }
}

impl Id for LocationArea {
    open spec fn id_ok(&self) -> bool {
        true
    }

    open spec fn id_spec(&self) -> int {
        self.id as int
    }

    fn id(&self) -> (r: i16) {
        self.id
    }
}

impl Named for PalParkArea {
    open spec fn name_spec(&self) -> Seq<char> {
        self.name@
    }

    fn name(&self) -> (r: &String) {
        &self.name
    }
}

impl Id for PalParkArea {
    open spec fn id_ok(&self) -> bool {
        true
    }

    open spec fn id_spec(&self) -> int {
        self.id as int
    }

    fn id(&self) -> (r: i16) {
        self.id
    }
}

impl Named for Region {
    open spec fn name_spec(&self) -> Seq<char> {
        self.name@
    }

    fn name(&self) -> (r: &String) {
        &self.name
    }
}

impl Id for Region {
    open spec fn id_ok(&self) -> bool {
        true
    }

    open spec fn id_spec(&self) -> int {
        self.id as int
    }

    fn id(&self) -> (r: i16) {
        self.id
    }
}

} // verus!
