use simple_pokedex::error::AppError;
use simple_pokedex::pokemon::Pokemon;
use simple_pokedex::translations::TranslationStyle;
use simple_pokedex::use_cases::PokemonUseCases;

fn use_case() -> PokemonUseCases<(), ()> {
    PokemonUseCases::new((), ())
}

fn enrich(pokemon: Pokemon, style: TranslationStyle, answer: Result<String, AppError>) -> Pokemon {
    let use_case = use_case();
    assert_eq!(use_case.translation_style(&pokemon), style);
    use_case.apply_translation(pokemon, answer)
}

#[test]
fn test_legendary_pokemon_gets_yoda_translation() {
    let legendary = Pokemon::new(
        "Lugia".to_string(),
        "Legendary bird".to_string(),
        "sea".to_string(),
        true,
    );

    let result = enrich(legendary, TranslationStyle::Yoda, Ok("Legendary, a bird is".to_string()));

    assert_eq!(result.description(), "Legendary, a bird is");
}

#[test]
fn test_cave_pokemon_gets_yoda_translation() {
    let cave_pokemon = Pokemon::new(
        "Zubat".to_string(),
        "Small bat pokemon".to_string(),
        "cave".to_string(),
        false,
    );

    let result = enrich(cave_pokemon, TranslationStyle::Yoda, Ok("Small, a bat pokemon is".to_string()));

    assert_eq!(result.description(), "Small, a bat pokemon is");
}

#[test]
fn test_regular_pokemon_gets_shakespeare_translation() {
    let regular = Pokemon::new(
        "Pidgeot".to_string(),
        "Bird pokemon".to_string(),
        "sky".to_string(),
        false,
    );

    let result = enrich(
        regular,
        TranslationStyle::Shakespeare,
        Ok("A creature of the winged persuasion".to_string()),
    );

    assert_eq!(result.description(), "A creature of the winged persuasion");
}

#[test]
fn test_translation_failure_fallback() {
    let pokemon = Pokemon::new(
        "Pikachu".to_string(),
        "Electric mouse".to_string(),
        "forest".to_string(),
        false,
    );

    let result = enrich(
        pokemon,
        TranslationStyle::Shakespeare,
        Err(AppError::GenericError("Rate limit".to_string())),
    );

    assert_eq!(result.description(), "Electric mouse");
}

#[test]
fn bad_request_failure_keeps_description_and_fields() {
    let pokemon = Pokemon::new("Onix".to_string(), "Rock snake".to_string(), "cave".to_string(), true);

    let result = enrich(
        pokemon,
        TranslationStyle::Yoda,
        Err(AppError::BadRequest("Invalid request".to_string())),
    );

    assert_eq!(result.description(), "Rock snake");
    assert_eq!(result.name(), "Onix");
    assert_eq!(result.habitat(), "cave");
    assert!(result.is_legendary());
}

#[test]
fn legendary_cave_dweller_gets_yoda() {
    let pokemon = Pokemon::new("Giratina".to_string(), "Renegade".to_string(), "cave".to_string(), true);

    assert_eq!(use_case().translation_style(&pokemon), TranslationStyle::Yoda);
}

#[test]
fn capitalized_cave_label_gets_shakespeare() {
    let pokemon = Pokemon::new("Zubat".to_string(), "Bat".to_string(), "Cave".to_string(), false);

    assert_eq!(use_case().translation_style(&pokemon), TranslationStyle::Shakespeare);
}

#[test]
fn use_case_keeps_its_repositories() {
    let use_case = PokemonUseCases::new(7u8, "transforms");

    assert_eq!(*use_case.pokemon_repository(), 7u8);
    assert_eq!(*use_case.translation_repository(), "transforms");
}
