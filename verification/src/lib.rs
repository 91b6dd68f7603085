//! A typed client for a creature-game REST API and the generator that maps
//! its resources into a game engine's schema.
//!
//! The remote API describes its data as a graph of resources that reference
//! each other by URL. The library models that graph ([`pokeapi`]), computes
//! the request URL of every operation ([`client`]) and the identifier
//! embedded in a resource location, transforms fetched resources into the
//! target schema ([`dex`], [`moves`], [`pokemon`]), trims the fetched
//! sprites ([`images`]), and records exactly one outcome per identifier of
//! an import run ([`importer`]). The transport that carries the requests
//! and the decoding of JSON bodies live with the caller: every function
//! here is pure from values to values, and verified.

pub mod client;
pub mod dex;
pub mod images;
pub mod importer;
pub mod moves;
pub mod pokeapi;
pub mod pokemon;
pub mod text;

use vstd::prelude::*;

use crate::dex::PokemonType;
use crate::text::ascii_upper;

verus! {

/// Trait for API objects with an associated endpoint.
pub trait Endpoint {
    /// The path segment naming this resource's collection, as a sequence of
    /// characters.
    spec fn endpoint_spec() -> Seq<char>;

    /// The path segment naming this resource's collection.
    fn endpoint() -> (r: &'static str)
        ensures
            r@ == Self::endpoint_spec(),
    ;
}

/// Trait for API objects with a name.
pub trait Named {
    /// The name as a sequence of characters.
    spec fn name_spec(&self) -> Seq<char>;

    /// Get the name of this object.
    fn name(&self) -> (r: &String)
        ensures
            r@ == self.name_spec(),
    ;
}

/// Trait for API objects with an ID.
pub trait Id {
    /// Whether this object carries a well-formed identifier.
    spec fn id_ok(&self) -> bool;

    /// The identifier as a mathematical value.
    spec fn id_spec(&self) -> int;

    /// Get the ID of this object.
    fn id(&self) -> (r: i16)
        requires
            self.id_ok(),
        ensures
            r as int == self.id_spec(),
    ;
}

/// Errors that the library reports while resolving references, fetching
/// resources and transforming them into the target schema.
#[derive(Debug, Clone, PartialEq, Eq)]
pub enum Error {
    /// The transport could not complete a request (network failure, timeout).
    Transport,
    /// The remote end answered with a non-success HTTP status.
    Http(u16),
    /// A response body did not match the expected shape.
    Decode,
    /// A resource location did not end in a numeric identifier segment.
    MalformedReference,
    /// An identifier fell outside the domain of an enum-mapping table.
    UnknownEnumValue(i16),
    /// A required field was absent from a decoded resource.
    MissingRequiredField(String),
}

/// The transformed move records of one import run, together with the
/// battle execution of each move, keyed by the move's identifier.
#[derive(Debug, PartialEq, Eq)]
pub struct GeneratedMoves {
    pub moves: Vec<dex::Move>,
    pub execution: Vec<(String, dex::MoveExecution)>,
}

/// A fault that a transformation step can report, described at the
/// specification level. An `Error` value carrying a `String` cannot be
/// written down in a specification, so a missing field is named by its
/// character sequence instead.
pub enum Fault {
    MissingField(Seq<char>),
    Failed(Error),
}

/// The error `e` reports the fault `f`.
pub open spec fn fault_matches(e: Error, f: Fault) -> bool {
    match f {
        Fault::MissingField(n) => e matches Error::MissingRequiredField(s) && s@ == n,
        Fault::Failed(e2) => e == e2,
    }
}

/// Uppercases the first character of a string; a first character that is
/// not an ASCII lowercase letter stays as it is.
pub fn capitalize_first(string: &mut String)
    requires
        old(string)@.len() > 0,
    ensures
        final(string)@ == old(string)@.update(0, ascii_upper(old(string)@[0])),
{
    let c = string.as_str().get_char(0);
    let up: char = if 'a' <= c && c <= 'z' {
        ((c as u32) - 32) as u8 as char
    } else {
        c
    };
    let n = string.as_str().unicode_len();
    let rest = string.as_str().substring_char(1, n).to_owned();
    let mut out = String::new();
    out.push(up);
    out.append(rest.as_str());
    proof {
        assert(out@ =~= old(string)@.update(0, ascii_upper(old(string)@[0])));
    }
    *string = out;
}

/// The elemental type that each identifier of the remote type collection
/// names; identifiers outside the table are unknown.
pub open spec fn type_table(id: int) -> Option<PokemonType> {
    if id == 1 {
        Some(PokemonType::Normal)
    } else if id == 10 {
        Some(PokemonType::Fire)
    } else if id == 11 {
        Some(PokemonType::Water)
    } else if id == 13 {
        Some(PokemonType::Electric)
    } else if id == 12 {
        Some(PokemonType::Grass)
    } else if id == 15 {
        Some(PokemonType::Ice)
    } else if id == 2 {
        Some(PokemonType::Fighting)
    } else if id == 4 {
        Some(PokemonType::Poison)
    } else if id == 5 {
        Some(PokemonType::Ground)
    } else if id == 3 {
        Some(PokemonType::Flying)
    } else if id == 14 {
        Some(PokemonType::Psychic)
    } else if id == 7 {
        Some(PokemonType::Bug)
    } else if id == 6 {
        Some(PokemonType::Rock)
    } else if id == 8 {
        Some(PokemonType::Phantom)
    } else if id == 16 {
        Some(PokemonType::Dragon)
    } else if id == 17 {
        Some(PokemonType::Dark)
    } else if id == 9 {
        Some(PokemonType::Steel)
    } else if id == 18 {
        Some(PokemonType::Fairy)
    } else {
        None
    }
}

/// Maps a remote type identifier to the elemental type it names; an
/// identifier outside the table's domain is an error, never a default.
pub fn type_from_id(id: i16) -> (r: Result<PokemonType, Error>)
    ensures
        match type_table(id as int) {
            Some(t) => r == Ok::<PokemonType, Error>(t),
            None => r == Err::<PokemonType, Error>(Error::UnknownEnumValue(id)),
        },
{
    match id {
        1 => Ok(PokemonType::Normal),
        10 => Ok(PokemonType::Fire),
        11 => Ok(PokemonType::Water),
        13 => Ok(PokemonType::Electric),
        12 => Ok(PokemonType::Grass),
        15 => Ok(PokemonType::Ice),
        2 => Ok(PokemonType::Fighting),
        4 => Ok(PokemonType::Poison),
        5 => Ok(PokemonType::Ground),
        3 => Ok(PokemonType::Flying),
        14 => Ok(PokemonType::Psychic),
        7 => Ok(PokemonType::Bug),
        6 => Ok(PokemonType::Rock),
        8 => Ok(PokemonType::Phantom),
        16 => Ok(PokemonType::Dragon),
        17 => Ok(PokemonType::Dark),
        9 => Ok(PokemonType::Steel),
        18 => Ok(PokemonType::Fairy),
        _ => Err(Error::UnknownEnumValue(id)),
    }
}

} // verus!
