use std::sync::Arc;
use vstd::prelude::*;

use crate::config::AppConfig;
use crate::use_cases::PokemonUseCases;

verus! {

/// A species as the service answers it to its callers.
#[derive(Debug)]
pub struct PokemonResponseDto {
    pub name: String,
    pub description: String,
    pub habitat: String,
    pub is_legendary: bool,
}

impl PokemonResponseDto {
    pub fn new(name: String, description: String, habitat: String, is_legendary: bool) -> (r:
        PokemonResponseDto)
        ensures
            r.name@ == name@,
            r.description@ == description@,
            r.habitat@ == habitat@,
            r.is_legendary == is_legendary,
    {
        PokemonResponseDto { name, description, habitat, is_legendary }
    }
}

/// What every request handler of the service shares: the settings and the
/// enrichment policy with its repositories.
#[derive(Clone)]
pub struct AppState<P, T> {
    pub config: AppConfig,
    pub pokemon_use_cases: Arc<PokemonUseCases<P, T>>,
}

} // verus!
