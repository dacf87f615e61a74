use std::sync::Arc;

use simple_pokedex::cache::TranslationCache;
use simple_pokedex::clients::{FunsTranslationsApiClient, PokeApiClient};
use simple_pokedex::error::AppError;
use simple_pokedex::repositories::{
    PokemonRepositoryImpl, TranslationRepositoryImpl, TranslationStep,
};
use simple_pokedex::species::{ApiResource, FlavorText, NamedApiResource, PokemonSpeciesResponseDto};
use simple_pokedex::translations::TranslationStyle;

fn resource(name: &str) -> NamedApiResource {
    NamedApiResource {
        name: name.to_string(),
        url: "".to_string(),
    }
}

fn lugia(habitat: Option<&str>, flavor: Vec<(&str, &str)>) -> PokemonSpeciesResponseDto {
    PokemonSpeciesResponseDto {
        id: 249,
        name: "lugia".to_string(),
        order: 1,
        gender_rate: -1,
        capture_rate: 3,
        base_happiness: 0,
        is_baby: false,
        is_legendary: true,
        is_mythical: false,
        hatch_counter: 120,
        has_gender_differences: false,
        forms_switchable: false,
        growth_rate: resource("slow"),
        pokedex_numbers: vec![],
        egg_groups: vec![],
        color: resource("white"),
        shape: resource("wings"),
        evolves_from_species: None,
        evolution_chain: ApiResource {
            url: "".to_string(),
        },
        habitat: habitat.map(resource),
        generation: resource("generation-ii"),
        names: vec![],
        flavor_text_entries: flavor
            .into_iter()
            .map(|(text, language)| FlavorText {
                text: text.to_string(),
                language: resource(language),
                version: resource("gold"),
            })
            .collect(),
        form_descriptions: vec![],
        genera: vec![],
        varieties: vec![],
    }
}

#[test]
fn unknown_species_status_is_not_found() {
    let client = PokeApiClient::new();

    match client.check_species_status("unknown-name", 404) {
        Err(AppError::NotFound(detail)) => {
            assert_eq!(detail, "Pokemon species 'unknown-name' not found")
        }
        other => panic!("unexpected {:?}", other),
    }
    assert!(matches!(client.check_species_status("x", 500), Err(AppError::NotFound(_))));
    assert!(matches!(client.check_species_status("x", 199), Err(AppError::NotFound(_))));
    assert!(client.check_species_status("x", 200).is_ok());
    assert!(client.check_species_status("x", 299).is_ok());
}

#[test]
fn species_url_names_the_species() {
    assert_eq!(
        PokeApiClient::new().species_url("mewtwo"),
        "https://pokeapi.co/api/v2/pokemon-species/mewtwo/"
    );
}

#[test]
fn translation_status_kinds() {
    let client = FunsTranslationsApiClient::new();

    assert!(client.check_status(200).is_ok());
    match client.check_status(429) {
        Err(AppError::GenericError(d)) => assert_eq!(d, "Rate limit exceeded for FunTranslations API"),
        other => panic!("unexpected {:?}", other),
    }
    match client.check_status(400) {
        Err(AppError::BadRequest(d)) => assert_eq!(d, "Invalid request to FunTranslations API"),
        other => panic!("unexpected {:?}", other),
    }
    match client.check_status(503) {
        Err(AppError::GenericError(d)) => {
            assert_eq!(d, "FunTranslations API error: 503 Service Unavailable")
        }
        other => panic!("unexpected {:?}", other),
    }
    match client.check_status(201) {
        Err(AppError::GenericError(d)) => assert_eq!(d, "FunTranslations API error: 201 Created"),
        other => panic!("unexpected {:?}", other),
    }
    match client.check_status(599) {
        Err(AppError::GenericError(d)) => {
            assert_eq!(d, "FunTranslations API error: 599 <unknown status code>")
        }
        other => panic!("unexpected {:?}", other),
    }
}

#[test]
fn translation_endpoints() {
    let client = FunsTranslationsApiClient::new();

    assert_eq!(
        client.endpoint(TranslationStyle::Shakespeare),
        "https://api.funtranslations.com/translate/shakespeare.json"
    );
    assert_eq!(
        client.endpoint(TranslationStyle::Yoda),
        "https://api.funtranslations.com/translate/yoda.json"
    );
}

#[test]
fn species_become_pokemon() {
    let repository = PokemonRepositoryImpl::new(Arc::new(PokeApiClient::new()));
    let dto = lugia(Some("sea"), vec![("Oiseau", "fr"), ("Legendary\nbird", "en")]);

    let pokemon = repository.pokemon_from_species(&dto);

    assert_eq!(pokemon.name(), "lugia");
    assert_eq!(pokemon.description(), "Legendary bird");
    assert_eq!(pokemon.habitat(), "Sea");
    assert!(pokemon.is_legendary());
}

#[test]
fn missing_texts_read_not_available() {
    let repository = PokemonRepositoryImpl::new(Arc::new(PokeApiClient::new()));
    let dto = lugia(None, vec![("Oiseau", "fr")]);

    let pokemon = repository.pokemon_from_species(&dto);

    assert_eq!(pokemon.description(), "Description not available");
    assert_eq!(pokemon.habitat(), "Description not available");
}

#[test]
fn cache_serves_an_inserted_key() {
    let mut cache = TranslationCache::new(300);

    assert_eq!(cache.get("yoda_Legendary bird"), None);
    cache.insert("yoda_Legendary bird".to_string(), "Legendary, a bird is".to_string());
    assert_eq!(cache.get("yoda_Legendary bird"), Some("Legendary, a bird is".to_string()));
    cache.insert("yoda_Legendary bird".to_string(), "A bird, legendary".to_string());
    assert_eq!(cache.get("yoda_Legendary bird"), Some("A bird, legendary".to_string()));
    assert_eq!(cache.get("shakespeare_Legendary bird"), None);
}

#[test]
fn cache_holds_a_full_capacity_of_entries() {
    let mut cache = TranslationCache::new(300);

    for n in 0..1000 {
        cache.insert(format!("k{}", n), format!("v{}", n));
    }
    assert_eq!(cache.get("k999"), Some("v999".to_string()));
}

#[test]
fn cache_keys_carry_the_style() {
    assert_eq!(
        TranslationRepositoryImpl::cache_key(TranslationStyle::Shakespeare, "Bird pokemon"),
        "shakespeare_Bird pokemon"
    );
    assert_eq!(TranslationRepositoryImpl::cache_key(TranslationStyle::Yoda, ""), "yoda_");
}

#[test]
fn second_translation_comes_from_cache() {
    let mut repository = TranslationRepositoryImpl::new(Arc::new(FunsTranslationsApiClient::new()));
    let mut fetches = 0;

    for _ in 0..2 {
        let answer = match repository.begin_translation(TranslationStyle::Yoda, "Legendary bird") {
            TranslationStep::Cached(v) => Ok(v),
            TranslationStep::Fetch => {
                fetches += 1;
                repository.finish_translation(
                    TranslationStyle::Yoda,
                    "Legendary bird",
                    Ok("Legendary, a bird is".to_string()),
                )
            }
        };
        assert_eq!(answer.unwrap(), "Legendary, a bird is");
    }

    assert_eq!(fetches, 1);
    assert!(matches!(
        repository.begin_translation(TranslationStyle::Shakespeare, "Legendary bird"),
        TranslationStep::Fetch
    ));
}

#[test]
fn failed_translation_is_not_cached() {
    let mut repository = TranslationRepositoryImpl::new(Arc::new(FunsTranslationsApiClient::new()));

    let answer = repository.finish_translation(
        TranslationStyle::Shakespeare,
        "Electric mouse",
        Err(AppError::GenericError("Rate limit".to_string())),
    );

    assert!(matches!(answer, Err(AppError::GenericError(_))));
    assert!(matches!(
        repository.begin_translation(TranslationStyle::Shakespeare, "Electric mouse"),
        TranslationStep::Fetch
    ));
}
