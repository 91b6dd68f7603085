//! Game version and generation resources.

use vstd::prelude::*;

use crate::pokeapi::locations::Region;
use crate::pokeapi::moves::{Move, MoveLearnMethod};
use crate::pokeapi::pokemon::{Ability, PokemonSpecies, Type};
use crate::pokeapi::utility::{Description, Name, NamedAPIResource};
use crate::{Endpoint, Id, Named};

verus! {

/// <https://pokeapi.co/docs/v2.html#generations>
#[derive(Debug, PartialEq, Eq, Hash)]
pub struct Generation {
    pub id: i16,
    pub name: String,
    pub abilities: Vec<NamedAPIResource>,
    pub names: Vec<Name>,
    pub main_region: NamedAPIResource,
    pub moves: Vec<NamedAPIResource>,
    pub pokemon_species: Vec<NamedAPIResource>,
    pub types: Vec<NamedAPIResource>,
    pub version_groups: Vec<NamedAPIResource>,
}

/// <https://pokeapi.co/docs/v2.html#pokedexes>
#[derive(Debug, PartialEq, Eq, Hash)]
pub struct Pokedex {
    pub id: i16,
    pub name: String,
    pub is_main_series: bool,
    pub descriptions: Vec<Description>,
    pub names: Vec<Name>,
    pub pokemon_entries: Vec<PokemonEntry>,
    pub region: Option<NamedAPIResource>,
    pub version_groups: Vec<NamedAPIResource>,
}

/// <https://pokeapi.co/docs/v2.html#pokemonentry>
#[derive(Debug, PartialEq, Eq, Hash)]
pub struct PokemonEntry {
    pub entry_number: u16,
    pub pokemon_species: NamedAPIResource,
}

/// <https://pokeapi.co/docs/v2.html#version>
#[derive(Debug, PartialEq, Eq, Hash)]
pub struct Version {
    pub id: i16,
    pub name: String,
    pub names: Vec<Name>,
    pub version_group: NamedAPIResource,
}

/// <https://pokeapi.co/docs/v2.html#version-groups>
#[derive(Debug, PartialEq, Eq, Hash)]
pub struct VersionGroup {
    pub id: i16,
    pub name: String,
    pub order: u16,
    pub generation: NamedAPIResource,
    pub move_learn_methods: Vec<NamedAPIResource>,
    pub pokedexes: Vec<NamedAPIResource>,
    pub regions: Vec<NamedAPIResource>,
    pub versions: Vec<NamedAPIResource>,
}

impl Id for Generation {
    open spec fn id_ok(&self) -> bool {
        true
    }

    open spec fn id_spec(&self) -> int {
        self.id as int
    }

    fn id(&self) -> (r: i16) {
        self.id
    }
}

impl Named for Generation {
    open spec fn name_spec(&self) -> Seq<char> {
        self.name@
    }

    fn name(&self) -> (r: &String) {
        &self.name
    }
}

impl Id for Version {
    open spec fn id_ok(&self) -> bool {
        true
    }

    open spec fn id_spec(&self) -> int {
        self.id as int
    }

    fn id(&self) -> (r: i16) {
        self.id
    }
}

impl Named for Version {
    open spec fn name_spec(&self) -> Seq<char> {
        self.name@
    }

    fn name(&self) -> (r: &String) {
        &self.name
    }
}

impl Id for VersionGroup {
    open spec fn id_ok(&self) -> bool {
        true
    }

    open spec fn id_spec(&self) -> int {
        self.id as int
    }

    fn id(&self) -> (r: i16) {
        self.id
    }
}

impl Named for VersionGroup {
    open spec fn name_spec(&self) -> Seq<char> {
        self.name@
    }

    fn name(&self) -> (r: &String) {
        &self.name
    }
}

impl Endpoint for Generation {
    open spec fn endpoint_spec() -> Seq<char> {
        "generation"@
    }

    fn endpoint() -> (r: &'static str) {
        "generation"
    }
}

impl Endpoint for Pokedex {
    open spec fn endpoint_spec() -> Seq<char> {
        "pokedex"@
    }

    fn endpoint() -> (r: &'static str) {
        "pokedex"
    }
}

impl Endpoint for Version {
    open spec fn endpoint_spec() -> Seq<char> {
        "version"@
    }

    fn endpoint() -> (r: &'static str) {
        "version"
    }
}

impl Endpoint for VersionGroup {
    open spec fn endpoint_spec() -> Seq<char> {
        "version-group"@
    }

    fn endpoint() -> (r: &'static str) {
        "version-group"
    }
}


impl Named for Pokedex {
    open spec fn name_spec(&self) -> Seq<char> {
        self.name@
    }

    fn name(&self) -> (r: &String) {
        &self.name
    }
}

impl Id for Pokedex {
    open spec fn id_ok(&self) -> bool {
        true
    }

    open spec fn id_spec(&self) -> int {
        self.id as int
    }

    fn id(&self) -> (r: i16) {
        self.id
    }
}

} // verus!
