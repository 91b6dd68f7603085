//! Item resources of the remote schema.

use vstd::prelude::*;

use crate::pokeapi::evolution::EvolutionChain;
use crate::pokeapi::games::Version;
use crate::pokeapi::machines::Machine;
use crate::pokeapi::pokemon::Pokemon;
use crate::pokeapi::utility::{
    APIResource, Description, Effect, GenerationGameIndex, MachineVersionDetail, Name,
    NamedAPIResource, VerboseEffect, VersionGroupFlavorText,
};
use crate::{Endpoint, Id, Named};

verus! {

/// <https://pokeapi.co/docs/v2.html#item>
#[derive(Debug, PartialEq, Eq, Hash)]
pub struct Item {
    pub id: i16,
    pub name: String,
    pub cost: u32,
    pub fling_power: Option<u8>,
    pub fling_effect: Option<NamedAPIResource>,
    pub attributes: Vec<NamedAPIResource>,
    pub category: NamedAPIResource,
    pub effect_entries: Vec<VerboseEffect>,
    pub flavor_text_entries: Vec<VersionGroupFlavorText>,
    pub game_indices: Vec<GenerationGameIndex>,
    pub names: Vec<Name>,
    pub sprites: ItemSprites,
    pub held_by_pokemon: Vec<ItemHolderPokemon>,
    pub baby_trigger_for: Option<APIResource>,
    pub machines: Vec<MachineVersionDetail>,
}

/// <https://pokeapi.co/docs/v2.html#itemsprites>
#[derive(Debug, PartialEq, Eq, Hash)]
pub struct ItemSprites {
    pub default: String,
}

/// <https://pokeapi.co/docs/v2.html#itemholderpokemon>
#[derive(Debug, PartialEq, Eq, Hash)]
pub struct ItemHolderPokemon {
    pub pokemon: NamedAPIResource,
    pub version_details: Vec<ItemHolderPokemonVersionDetail>,
}

/// <https://pokeapi.co/docs/v2.html#itemholderpokemonversiondetail>
#[derive(Debug, PartialEq, Eq, Hash)]
pub struct ItemHolderPokemonVersionDetail {
    pub rarity: u8,
    pub version: NamedAPIResource,
}

/// <https://pokeapi.co/docs/v2.html#item-attributes>
#[derive(Debug, PartialEq, Eq, Hash)]
pub struct ItemAttribute {
    pub id: i16,
    pub name: String,
    pub items: Vec<NamedAPIResource>,
    pub names: Vec<Name>,
    pub descriptions: Vec<Description>,
}

/// <https://pokeapi.co/docs/v2.html#item-categories>
#[derive(Debug, PartialEq, Eq, Hash)]
pub struct ItemCategory {
    pub id: i16,
    pub name: String,
    pub items: Vec<NamedAPIResource>,
    pub names: Vec<Name>,
    pub pocket: NamedAPIResource,
}

/// <https://pokeapi.co/docs/v2.html#item-fling-effects>
#[derive(Debug, PartialEq, Eq, Hash)]
pub struct ItemFlingEffect {
    pub id: i16,
    pub name: String,
    pub effect_entries: Vec<Effect>,
    pub items: Vec<NamedAPIResource>,
}

/// <https://pokeapi.co/docs/v2.html#item-pockets>
#[derive(Debug, PartialEq, Eq, Hash)]
pub struct ItemPocket {
    pub id: i16,
    pub name: String,
    pub categories: Vec<NamedAPIResource>,
    pub names: Vec<Name>,
}

impl Id for Item {
    open spec fn id_ok(&self) -> bool {
        true
    }

    open spec fn id_spec(&self) -> int {
        self.id as int
    }

    fn id(&self) -> (r: i16) {
        self.id
    }
}

impl Named for Item {
    open spec fn name_spec(&self) -> Seq<char> {
        self.name@
    }

    fn name(&self) -> (r: &String) {
        &self.name
    }
}

impl Endpoint for Item {
    open spec fn endpoint_spec() -> Seq<char> {
        "item"@
    }

    fn endpoint() -> (r: &'static str) {
        "item"
    }
}

impl Endpoint for ItemAttribute {
    open spec fn endpoint_spec() -> Seq<char> {
        "item-attribute"@
    }

    fn endpoint() -> (r: &'static str) {
        "item-attribute"
    }
}

impl Endpoint for ItemCategory {
    open spec fn endpoint_spec() -> Seq<char> {
        "item-category"@
    }

    fn endpoint() -> (r: &'static str) {
        "item-category"
    }
}

impl Endpoint for ItemFlingEffect {
    open spec fn endpoint_spec() -> Seq<char> {
        "item-fling-effect"@
    }

    fn endpoint() -> (r: &'static str) {
        "item-fling-effect"
    }
}

impl Endpoint for ItemPocket {
    open spec fn endpoint_spec() -> Seq<char> {
        "item-pocket"@
    }

    fn endpoint() -> (r: &'static str) {
        "item-pocket"
    }
}


impl Named for ItemAttribute {
    open spec fn name_spec(&self) -> Seq<char> {
        self.name@
    }

    fn name(&self) -> (r: &String) {
        &self.name
    }
}

impl Id for ItemAttribute {
    open spec fn id_ok(&self) -> bool {
        true
    }

    open spec fn id_spec(&self) -> int {
        self.id as int
    }

    fn id(&self) -> (r: i16) {
        self.id
    }
}

impl Named for ItemCategory {
    open spec fn name_spec(&self) -> Seq<char> {
        self.name@
    }

    fn name(&self) -> (r: &String) {
        &self.name
    }
}

impl Id for ItemCategory {
    open spec fn id_ok(&self) -> bool {
        true
    }

    open spec fn id_spec(&self) -> int {
        self.id as int
    }

    fn id(&self) -> (r: i16) {
        self.id
    }
}

impl Named for ItemFlingEffect {
    open spec fn name_spec(&self) -> Seq<char> {
        self.name@
    }

    fn name(&self) -> (r: &String) {
        &self.name
    }
}

impl Id for ItemFlingEffect {
    open spec fn id_ok(&self) -> bool {
        true
    }

    open spec fn id_spec(&self) -> int {
        self.id as int
    }

    fn id(&self) -> (r: i16) {
        self.id
    }
}

impl Named for ItemPocket {
    open spec fn name_spec(&self) -> Seq<char> {
        self.name@
    }

    fn name(&self) -> (r: &String) {
        &self.name
    }
}

impl Id for ItemPocket {
    open spec fn id_ok(&self) -> bool {
        true
    }

    open spec fn id_spec(&self) -> int {
        self.id as int
    }

    fn id(&self) -> (r: i16) {
        self.id
    }
}

} // verus!
