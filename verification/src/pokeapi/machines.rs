//! Machine resources: items that teach moves.

use vstd::prelude::*;

use crate::pokeapi::games::VersionGroup;
use crate::pokeapi::items::Item;
use crate::pokeapi::moves::Move;
use crate::pokeapi::utility::NamedAPIResource;
use crate::{Endpoint, Id};

verus! {

/// <https://pokeapi.co/docs/v2.html#machines>
#[derive(Debug, PartialEq, Eq, Hash)]
pub struct Machine {
    pub id: i16,
    pub item: NamedAPIResource,
    pub move_: NamedAPIResource,
    pub version_group: NamedAPIResource,
}

impl Id for Machine {
    open spec fn id_ok(&self) -> bool {
        true
    }

    open spec fn id_spec(&self) -> int {
        self.id as int
    }

    fn id(&self) -> (r: i16) {
        self.id
    }
}

impl Endpoint for Machine {
    open spec fn endpoint_spec() -> Seq<char> {
        "machine"@
    }

    fn endpoint() -> (r: &'static str) {
        "machine"
    }
}

} // verus!
