//! Contest resources of the remote schema.

use vstd::prelude::*;

use crate::pokeapi::berries::BerryFlavor;
use crate::pokeapi::moves::Move;
use crate::pokeapi::utility::{Effect, FlavorText, Language, NamedAPIResource};
use crate::{Endpoint, Id, Named};

verus! {

/// <https://pokeapi.co/docs/v2.html#contests-section>
#[derive(Debug, PartialEq, Eq, Hash)]
pub struct ContestType {
    pub id: i16,
    pub name: String,
    pub berry_flavor: NamedAPIResource,
    pub names: Vec<ContestName>,
}

/// <https://pokeapi.co/docs/v2.html#contestname>
#[derive(Debug, PartialEq, Eq, Hash)]
pub struct ContestName {
    pub name: String,
    pub color: String,
    pub language: NamedAPIResource,
}

/// <https://pokeapi.co/docs/v2.html#contest-effects>
#[derive(Debug, PartialEq, Eq, Hash)]
pub struct ContestEffect {
    pub id: i16,
    pub appeal: u8,
    pub jam: u8,
    pub effect_entries: Vec<Effect>,
    pub flavor_text_entries: Vec<FlavorText>,
}

/// <https://pokeapi.co/docs/v2.html#super-contest-effects>
#[derive(Debug, PartialEq, Eq, Hash)]
pub struct SuperContestEffect {
    pub id: i16,
    pub appeal: u8,
    pub flavor_text_entries: Vec<FlavorText>,
    pub moves: Vec<NamedAPIResource>,
}

impl Id for ContestType {
    open spec fn id_ok(&self) -> bool {
        true
    }

    open spec fn id_spec(&self) -> int {
        self.id as int
    }

    fn id(&self) -> (r: i16) {
        self.id
    }
}

impl Named for ContestType {
    open spec fn name_spec(&self) -> Seq<char> {
        self.name@
    }

    fn name(&self) -> (r: &String) {
        &self.name
    }
}

impl Endpoint for ContestType {
    open spec fn endpoint_spec() -> Seq<char> {
        "contest-type"@
    }

    fn endpoint() -> (r: &'static str) {
        "contest-type"
    }
}


impl Id for ContestEffect {
    open spec fn id_ok(&self) -> bool {
        true
    }

    open spec fn id_spec(&self) -> int {
        self.id as int
    }

    fn id(&self) -> (r: i16) {
        self.id
    }
}

impl Id for SuperContestEffect {
    open spec fn id_ok(&self) -> bool {
        true
    }

    open spec fn id_spec(&self) -> int {
        self.id as int
    }

    fn id(&self) -> (r: i16) {
        self.id
    }
}

impl Endpoint for ContestEffect {
    open spec fn endpoint_spec() -> Seq<char> {
        "contest-effect"@
    }

    fn endpoint() -> (r: &'static str) {
        "contest-effect"
    }
}

impl Endpoint for SuperContestEffect {
    open spec fn endpoint_spec() -> Seq<char> {
        "super-contest-effect"@
    }

    fn endpoint() -> (r: &'static str) {
        "super-contest-effect"
    }
}

} // verus!
