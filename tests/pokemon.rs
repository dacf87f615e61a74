use simple_pokedex::pokemon::Pokemon;

#[test]
fn test_pokemon_creation() {
    let pokemon = Pokemon::new(
        "Pikachu".to_string(),
        "Electric mouse".to_string(),
        "cave".to_string(),
        false,
    );

    assert_eq!(pokemon.name(), "Pikachu");
    assert_eq!(pokemon.habitat(), "cave");
    assert!(!pokemon.is_legendary());
}

#[test]
fn test_is_cave_detection() {
    let cave_pokemon = Pokemon::new(
        "Onix".to_string(),
        "Rock snake".to_string(),
        "cave".to_string(),
        false,
    );

    assert!(cave_pokemon.is_cave());
}

#[test]
fn test_set_translated_description() {
    let mut pokemon = Pokemon::new(
        "Charmander".to_string(),
        "Fire lizard".to_string(),
        "grassland".to_string(),
        false,
    );

    pokemon.set_translated_description("Verily, a flame-born creature".to_string());

    assert_eq!(pokemon.description(), "Verily, a flame-born creature");
}

#[test]
fn test_legendary_pokemon() {
    let legendary = Pokemon::new(
        "Mewtwo".to_string(),
        "Genetic clone".to_string(),
        "laboratory".to_string(),
        true,
    );

    assert!(legendary.is_legendary());
}

#[test]
fn cave_detection_is_exact() {
    let rare = Pokemon::new("Zubat".to_string(), "Bat".to_string(), "Rare Cave".to_string(), false);
    let upper = Pokemon::new("Zubat".to_string(), "Bat".to_string(), "Cave".to_string(), false);

    assert!(!rare.is_cave());
    assert!(!upper.is_cave());
}
