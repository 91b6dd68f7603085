use pokedex_gen::client::Client;
use pokedex_gen::pokeapi::resource_lists::NamedAPIResourceList;
use pokedex_gen::pokeapi::utility::NamedAPIResource;
use pokedex_gen::Error;

fn entry(name: &str, url: &str) -> NamedAPIResource {
    NamedAPIResource::new(String::from(name), String::from(url))
}

fn first_page() -> NamedAPIResourceList {
    NamedAPIResourceList {
        count: 3,
        next: Some(String::from(
            "https://pokeapi.co/api/v2/berry/?offset=2&limit=2",
        )),
        previous: None,
        results: vec![
            entry("cheri", "https://pokeapi.co/api/v2/berry/1/"),
            entry("chesto", "https://pokeapi.co/api/v2/berry/2/"),
        ],
    }
}

fn last_page() -> NamedAPIResourceList {
    NamedAPIResourceList {
        count: 3,
        next: None,
        previous: Some(String::from(
            "https://pokeapi.co/api/v2/berry/?offset=0&limit=2",
        )),
        results: vec![entry("pecha", "https://pokeapi.co/api/v2/berry/3/")],
    }
}

// The mock remote dataset: what the fetch of each request URL decodes to.
fn mock_fetch(url: &str) -> Option<NamedAPIResourceList> {
    if url == "https://pokeapi.co/api/v2/berry/?offset=2&limit=2" {
        Some(last_page())
    } else if url == "https://pokeapi.co/api/v2/berry/?offset=0&limit=2" {
        Some(first_page())
    } else {
        None
    }
}

#[test]
fn following_next_once_reaches_the_last_page() {
    let client = Client::new(String::from("https://pokeapi.co/api/v2/"));
    let page = first_page();
    let next_url = page.next_location(&client).unwrap().unwrap();
    let second = mock_fetch(&next_url).unwrap();
    assert_eq!(*second.count(), 3);
    // The second call resolves to no further page.
    assert_eq!(second.next_location(&client), Ok(None));
}

#[test]
fn previous_follows_the_previous_reference() {
    let client = Client::new(String::from("https://pokeapi.co/api/v2/"));
    let page = last_page();
    let previous_url = page.previous_location(&client).unwrap().unwrap();
    let first = mock_fetch(&previous_url).unwrap();
    assert_eq!(first.results.len(), 2);
    assert_eq!(first.previous_location(&client), Ok(None));
}

#[test]
fn malformed_page_reference_is_reported() {
    let client = Client::new(String::from("https://pokeapi.co/api/v2/"));
    let page = NamedAPIResourceList {
        next: Some(String::from("https://example.org/elsewhere")),
        ..first_page()
    };
    assert_eq!(page.next_location(&client), Err(Error::MalformedReference));
}
