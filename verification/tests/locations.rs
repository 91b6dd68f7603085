use pokedex_gen::client::{classify_status, Client};
use pokedex_gen::pokeapi::get_api_loc_from_url;
use pokedex_gen::pokeapi::pokemon::{Pokemon, PokemonSprites};
use pokedex_gen::pokeapi::utility::{
    extract_identifier, id_from_url, APIResource, NamedAPIResource,
};
use pokedex_gen::text::{i16_to_string, u64_to_string};
use pokedex_gen::{Endpoint, Error, Id, Named};

#[test]
fn test_get_api_loc_from_url() {
    assert_eq!(
        get_api_loc_from_url("https://pokeapi.co/api/v2/ability/?offset=20&limit=20"),
        "ability/?offset=20&limit=20"
    );
    assert_eq!(
        get_api_loc_from_url("http://localhost:8000/api/v2/pokemon/?limit=0&offset=42"),
        "pokemon/?limit=0&offset=42"
    );
    assert_eq!(
        get_api_loc_from_url("https://pokeapi.co/api/v2/api/v2/ability/?offset=20&limit=20"),
        "ability/?offset=20&limit=20"
    );
    assert_eq!(
        get_api_loc_from_url("https://pokeapi.co/api/v2/pokemon/25/encounters"),
        "pokemon/25/encounters"
    )
}

#[test]
fn test_id_from_url() {
    assert_eq!(
        id_from_url("https://pokeapi.co/api/v2/move-ailment/-1/"),
        -1
    );
    assert_eq!(id_from_url("https://pokeapi.co/api/v2/move-category/0/"), 0);
    assert_eq!(id_from_url("http://localhost:8000/api/v2/item/38/"), 38);
}

#[test]
fn extract_identifier_valid_locations() {
    assert_eq!(
        extract_identifier("https://pokeapi.co/api/v2/item/38/"),
        Ok(38)
    );
    assert_eq!(
        extract_identifier("https://pokeapi.co/api/v2/move-ailment/-1/"),
        Ok(-1)
    );
    assert_eq!(extract_identifier("/type/18/"), Ok(18));
    assert_eq!(extract_identifier("a/32767/"), Ok(32767));
    assert_eq!(extract_identifier("a/-32768/"), Ok(-32768));
}

#[test]
fn extract_identifier_malformed_locations() {
    // No trailing slash.
    assert_eq!(
        extract_identifier("https://pokeapi.co/api/v2/item/38"),
        Err(Error::MalformedReference)
    );
    // Non-numeric trailing segment.
    assert_eq!(
        extract_identifier("https://pokeapi.co/api/v2/item/cheri/"),
        Err(Error::MalformedReference)
    );
    // Empty trailing segment.
    assert_eq!(
        extract_identifier("https://pokeapi.co/api/v2/item//"),
        Err(Error::MalformedReference)
    );
    // A lone minus sign is not a numeral.
    assert_eq!(extract_identifier("a/-/"), Err(Error::MalformedReference));
    // No slash before the identifier segment.
    assert_eq!(extract_identifier("38/"), Err(Error::MalformedReference));
    // Too large for the identifier type.
    assert_eq!(extract_identifier("a/32768/"), Err(Error::MalformedReference));
    assert_eq!(
        extract_identifier("a/-32769/"),
        Err(Error::MalformedReference)
    );
    assert_eq!(extract_identifier(""), Err(Error::MalformedReference));
    assert_eq!(extract_identifier("/"), Err(Error::MalformedReference));
}

#[test]
fn decimal_strings() {
    assert_eq!(u64_to_string(0), "0");
    assert_eq!(u64_to_string(9999), "9999");
    assert_eq!(u64_to_string(1000000), "1000000");
    assert_eq!(i16_to_string(-1), "-1");
    assert_eq!(i16_to_string(-32768), "-32768");
    assert_eq!(i16_to_string(25), "25");
}

#[test]
fn client_locations() {
    let client = Client::new(String::from("https://pokeapi.co/api/v2/"));
    assert_eq!(
        client.get_location::<pokedex_gen::pokeapi::pokemon::Pokemon>(25),
        "https://pokeapi.co/api/v2/pokemon/25/"
    );
    assert_eq!(
        client.get_location_by_name::<pokedex_gen::pokeapi::berries::Berry>("cheri"),
        "https://pokeapi.co/api/v2/berry/cheri/"
    );
    assert_eq!(
        client.list_location::<pokedex_gen::pokeapi::moves::Move>(5, 20),
        "https://pokeapi.co/api/v2/move/?offset=5&limit=20"
    );
    assert_eq!(
        client.full_list_location::<pokedex_gen::pokeapi::items::Item>(),
        "https://pokeapi.co/api/v2/item/?offset=0&limit=9999"
    );
}

#[test]
fn client_get_api_loc_reroots_at_the_endpoint() {
    let client = Client::new(String::from("http://localhost:8000/api/v2/"));
    assert_eq!(
        client.get_api_loc("https://pokeapi.co/api/v2/berry/3/"),
        Ok(String::from("http://localhost:8000/api/v2/berry/3/"))
    );
    assert_eq!(
        client.get_api_loc("https://example.org/else/3/"),
        Err(Error::MalformedReference)
    );
}

#[test]
fn reference_get_prepares_the_request() {
    let client = Client::new(String::from("https://pokeapi.co/api/v2/"));
    let named: NamedAPIResource =
        NamedAPIResource::new(String::from("cheri"), String::from("https://pokeapi.co/api/v2/berry/1/"));
    assert_eq!(
        named.get(&client),
        Ok(String::from("https://pokeapi.co/api/v2/berry/1/"))
    );
    let plain: APIResource = APIResource::new(String::from("https://pokeapi.co/api/v2/machine/2/"));
    assert_eq!(
        plain.get(&client),
        Ok(String::from("https://pokeapi.co/api/v2/machine/2/"))
    );
    let broken: APIResource = APIResource::new(String::from("https://example.org/machine/2/"));
    assert_eq!(broken.get(&client), Err(Error::MalformedReference));
}

#[test]
fn resolving_twice_is_idempotent() {
    // An unchanged remote dataset, keyed by the absolute request URL.
    let dataset = |url: &str| -> Option<NamedAPIResource> {
        if url == "https://pokeapi.co/api/v2/berry/1/" {
            Some(NamedAPIResource::new(
                String::from("cheri"),
                String::from("https://pokeapi.co/api/v2/berry/1/"),
            ))
        } else {
            None
        }
    };
    let client = Client::new(String::from("https://pokeapi.co/api/v2/"));
    let reference: NamedAPIResource = NamedAPIResource::new(
        String::from("cheri"),
        String::from("https://pokeapi.co/api/v2/berry/1/"),
    );
    let first_url = reference.get(&client).unwrap();
    let second_url = reference.get(&client).unwrap();
    assert_eq!(first_url, second_url);
    let first = dataset(&first_url).unwrap();
    let second = dataset(&second_url).unwrap();
    assert_eq!(first, second);
}

#[test]
fn trait_accessors() {
    let named: NamedAPIResource = NamedAPIResource::new(
        String::from("cheri"),
        String::from("https://pokeapi.co/api/v2/berry/1/"),
    );
    assert_eq!(named.id(), 1);
    assert_eq!(named.name().as_str(), "cheri");
    assert_eq!(pokedex_gen::pokeapi::moves::Move::endpoint(), "move");
    assert_eq!(pokedex_gen::pokeapi::pokemon::PokemonSpecies::endpoint(), "pokemon-species");
}

#[test]
fn status_classification() {
    assert_eq!(classify_status(200), Ok(()));
    assert_eq!(classify_status(299), Ok(()));
    assert_eq!(classify_status(404), Err(Error::Http(404)));
    assert_eq!(classify_status(199), Err(Error::Http(199)));
    assert_eq!(classify_status(500), Err(Error::Http(500)));
}

#[test]
fn pokemon_encounters_location() {
    let client = Client::new(String::from("https://pokeapi.co/api/v2/"));
    let pokemon = Pokemon {
        id: 25,
        name: String::from("pikachu"),
        base_experience: 112,
        height: 4,
        is_default: true,
        order: 35,
        weight: 60,
        abilities: vec![],
        forms: vec![],
        game_indices: vec![],
        held_items: vec![],
        location_area_encounters: String::from("https://pokeapi.co/api/v2/pokemon/25/encounters"),
        moves: vec![],
        sprites: PokemonSprites {
            front_default: None,
            front_shiny: None,
            front_female: None,
            front_shiny_female: None,
            back_default: None,
            back_shiny: None,
            back_female: None,
            back_shiny_female: None,
        },
        species: NamedAPIResource::new(
            String::from("pikachu"),
            String::from("https://pokeapi.co/api/v2/pokemon-species/25/"),
        ),
        stats: vec![],
        types: vec![],
    };
    assert_eq!(
        pokemon.get_encounters(&client),
        Ok(String::from("https://pokeapi.co/api/v2/pokemon/25/encounters"))
    );
}
