//! Evolution chain resources of the remote schema.

use vstd::prelude::*;

use crate::pokeapi::items::Item;
use crate::pokeapi::locations::Location;
use crate::pokeapi::moves::Move;
use crate::pokeapi::pokemon::{PokemonSpecies, Type};
use crate::pokeapi::utility::{Name, NamedAPIResource};
use crate::{Endpoint, Id, Named};

verus! {

/// <https://pokeapi.co/docs/v2.html#evolution-chains>
#[derive(Debug, PartialEq, Eq, Hash)]
pub struct EvolutionChain {
    pub id: i16,
    pub baby_trigger_item: Option<NamedAPIResource>,
    pub chain: ChainLink,
}

/// <https://pokeapi.co/docs/v2.html#chainlink>
#[derive(Debug, PartialEq, Eq, Hash)]
pub struct ChainLink {
    pub is_baby: bool,
    pub species: NamedAPIResource,
    pub evolution_details: Vec<EvolutionDetail>,
    pub evolves_to: Vec<ChainLink>,
}

/// <https://pokeapi.co/docs/v2.html#evolutiondetail>
#[derive(Debug, PartialEq, Eq, Hash)]
pub struct EvolutionDetail {
    pub item: Option<NamedAPIResource>,
    pub trigger: NamedAPIResource,
    pub gender: Option<i8>,
    pub held_item: Option<NamedAPIResource>,
    pub known_move: Option<NamedAPIResource>,
    pub known_move_type: Option<NamedAPIResource>,
    pub location: Option<NamedAPIResource>,
    pub min_level: Option<u8>,
    pub min_happiness: Option<u8>,
    pub min_beauty: Option<u8>,
    pub min_affection: Option<u8>,
    pub needs_overworld_rain: bool,
    pub party_species: Option<NamedAPIResource>,
    pub party_type: Option<NamedAPIResource>,
    pub relative_physical_stats: Option<i8>,
    pub time_of_day: String,
    pub trade_species: Option<NamedAPIResource>,
    pub turn_upside_down: bool,
}

/// <https://pokeapi.co/docs/v2.html#evolution-triggers>
#[derive(Debug, PartialEq, Eq, Hash)]
pub struct EvolutionTrigger {
    pub id: i16,
    pub name: String,
    pub names: Vec<Name>,
    pub pokemon_species: Vec<NamedAPIResource>,
}

impl Id for EvolutionChain {
    open spec fn id_ok(&self) -> bool {
        true
    }

    open spec fn id_spec(&self) -> int {
        self.id as int
    }

    fn id(&self) -> (r: i16) {
        self.id
    }
}

impl Endpoint for EvolutionChain {
    open spec fn endpoint_spec() -> Seq<char> {
        "evolution-chain"@
    }

    fn endpoint() -> (r: &'static str) {
        "evolution-chain"
    }
}

impl Endpoint for EvolutionTrigger {
    open spec fn endpoint_spec() -> Seq<char> {
        "evolution-trigger"@
    }

    fn endpoint() -> (r: &'static str) {
        "evolution-trigger"
    }
}


impl Named for EvolutionTrigger {
    open spec fn name_spec(&self) -> Seq<char> {
        self.name@
    }

    fn name(&self) -> (r: &String) {
        &self.name
    }
}

impl Id for EvolutionTrigger {
    open spec fn id_ok(&self) -> bool {
        true
    }

    open spec fn id_spec(&self) -> int {
        self.id as int
    }

    fn id(&self) -> (r: i16) {
        self.id
    }
}

} // verus!
