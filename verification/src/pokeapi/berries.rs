//! Berry resources of the remote schema.

use vstd::prelude::*;

use crate::pokeapi::contests::ContestType;
use crate::pokeapi::items::Item;
use crate::pokeapi::pokemon::Type;
use crate::pokeapi::utility::{Name, NamedAPIResource};
use crate::{Endpoint, Id, Named};

verus! {

/// <https://pokeapi.co/docs/v2.html#berries>
#[derive(Debug, PartialEq, Eq, Hash)]
pub struct Berry {
    pub id: i16,
    pub name: String,
    pub growth_time: u8,
    pub max_harvest: u8,
    pub natural_gift_power: u8,
    pub size: u16,
    pub smoothness: u8,
    pub soil_dryness: u8,
    pub firmness: NamedAPIResource,
    pub flavors: Vec<BerryFlavorMap>,
    pub item: NamedAPIResource,
    pub natural_gift_type: NamedAPIResource,
}

/// <https://pokeapi.co/docs/v2.html#berryflavormap>
#[derive(Debug, PartialEq, Eq, Hash)]
pub struct BerryFlavorMap {
    pub potency: u8,
    pub flavor: NamedAPIResource,
}

/// <https://pokeapi.co/docs/v2.html#berry-firmnesses>
#[derive(Debug, PartialEq, Eq, Hash)]
pub struct BerryFirmness {
    pub id: i16,
    pub name: String,
    pub berries: Vec<NamedAPIResource>,
    pub names: Vec<Name>,
}

/// <https://pokeapi.co/docs/v2.html#berry-flavors>
#[derive(Debug, PartialEq, Eq, Hash)]
pub struct BerryFlavor {
    pub id: i16,
    pub name: String,
    pub berries: Vec<FlavorBerryMap>,
    pub contest_type: NamedAPIResource,
    pub names: Vec<Name>,
}

/// <https://pokeapi.co/docs/v2.html#flavorberrymap>
#[derive(Debug, PartialEq, Eq, Hash)]
pub struct FlavorBerryMap {
    pub potency: u8,
    pub berry: NamedAPIResource,
}

impl Id for Berry {
    open spec fn id_ok(&self) -> bool {
        true
    }

    open spec fn id_spec(&self) -> int {
        self.id as int
    }

    fn id(&self) -> (r: i16) {
        self.id
    }
}

impl Named for Berry {
    open spec fn name_spec(&self) -> Seq<char> {
        self.name@
    }

    fn name(&self) -> (r: &String) {
        &self.name
    }
}

impl Endpoint for Berry {
    open spec fn endpoint_spec() -> Seq<char> {
        "berry"@
    }

    fn endpoint() -> (r: &'static str) {
        "berry"
    }
}

impl Endpoint for BerryFirmness {
    open spec fn endpoint_spec() -> Seq<char> {
        "berry-firmness"@
    }

    fn endpoint() -> (r: &'static str) {
        "berry-firmness"
    }
}

impl Endpoint for BerryFlavor {
    open spec fn endpoint_spec() -> Seq<char> {
        "berry-flavor"@
    }

    fn endpoint() -> (r: &'static str) {
        "berry-flavor"
    }
}


impl Named for BerryFirmness {
    open spec fn name_spec(&self) -> Seq<char> {
        self.name@
    }

    fn name(&self) -> (r: &String) {
        &self.name
    }
}

impl Id for BerryFirmness {
    open spec fn id_ok(&self) -> bool {
        true
    }

    open spec fn id_spec(&self) -> int {
        self.id as int
    }

    fn id(&self) -> (r: i16) {
        self.id
    }
}

impl Named for BerryFlavor {
    open spec fn name_spec(&self) -> Seq<char> {
        self.name@
    }

    fn name(&self) -> (r: &String) {
        &self.name
    }
}

impl Id for BerryFlavor {
    open spec fn id_ok(&self) -> bool {
        true
    }

    open spec fn id_spec(&self) -> int {
        self.id as int
    }

    fn id(&self) -> (r: i16) {
        self.id
    }
}

} // verus!
