use vstd::prelude::*;

use crate::error::AppResult;
use crate::pokemon::{cave_label, Pokemon, PokemonView};
use crate::translations::TranslationStyle;

verus! {

/// The style that a species' description is rewritten in: the archaic one for
/// cave dwellers and legendary species, the formal one for all others.
pub open spec fn style_for(p: PokemonView) -> TranslationStyle {
    if p.habitat == cave_label() || p.is_legendary {
        TranslationStyle::Yoda
    } else {
        TranslationStyle::Shakespeare
    }
}

/// The species after its description has been rewritten: the translation on
/// success, the description it had on any failure.
pub open spec fn translated_view(p: PokemonView, translation: AppResult<String>) -> PokemonView {
    PokemonView {
        description: match translation {
            Ok(t) => t@,
            Err(_) => p.description,
        },
        ..p
    }
}

/// The enrichment policy over a species catalog and a style-transform service.
/// The services themselves are reached by whoever drives the flow: this type
/// decides which style to ask for and what a transform's outcome does to the
/// species.
pub struct PokemonUseCases<P, T> {
    pokemon_repository: P,
    translation_repository: T,
}

impl<P, T> PokemonUseCases<P, T> {
    /// The catalog side and the transform side, in that order.
    pub closed spec fn repositories(&self) -> (P, T) {
        (self.pokemon_repository, self.translation_repository)
    }

    pub fn new(pokemon_repository: P, translation_repository: T) -> (r: PokemonUseCases<P, T>)
        ensures
            r.repositories() == (pokemon_repository, translation_repository),
    {
        PokemonUseCases { pokemon_repository, translation_repository }
    }

    pub fn pokemon_repository(&self) -> (r: &P)
        ensures
            *r == self.repositories().0,
    {
        &self.pokemon_repository
    }

    pub fn translation_repository(&self) -> (r: &T)
        ensures
            *r == self.repositories().1,
    {
        &self.translation_repository
    }

    /// The style to rewrite `pokemon`'s description in: Yoda exactly when its
    /// habitat is `cave` or it is legendary, Shakespeare otherwise.
    pub fn translation_style(&self, pokemon: &Pokemon) -> (r: TranslationStyle)
        ensures
            r == style_for(pokemon@),
            r == TranslationStyle::Yoda <==> (pokemon@.habitat == cave_label()
                || pokemon@.is_legendary),
            r == TranslationStyle::Shakespeare <==> !(pokemon@.habitat == cave_label()
                || pokemon@.is_legendary),
    {
        if pokemon.is_cave() || pokemon.is_legendary() {
            TranslationStyle::Yoda
        } else {
            TranslationStyle::Shakespeare
        }
    }

    /// Applies the outcome of the transform to `pokemon`: a translation replaces
    /// the description exactly; a failure of any kind is absorbed and leaves the
    /// description as it was. The result is never an error.
    pub fn apply_translation(&self, pokemon: Pokemon, translation: AppResult<String>) -> (r:
        Pokemon)
        ensures
            r@ == translated_view(pokemon@, translation),
            translation matches Ok(t) ==> r@.description == t@,
            translation is Err ==> r@ == pokemon@,
            r@.name == pokemon@.name,
            r@.habitat == pokemon@.habitat,
            r@.is_legendary == pokemon@.is_legendary,
    {
        let mut pokemon = pokemon;
        match translation {
            Ok(t) => pokemon.set_translated_description(t),
            Err(_) => {},
        }
        pokemon
    }
}

} // verus!
