use std::sync::Arc;
use vstd::prelude::*;
use vstd::string::StringExecFns;

use crate::cache::{TranslationCache, CACHE_CAPACITY};
use crate::clients::{FunsTranslationsApiClient, PokeApiClient};
use crate::error::AppResult;
use crate::pokemon::Pokemon;
use crate::species::{clean_flavor_text, first_english, habitat_label, PokemonSpeciesResponseDto};
use crate::translations::TranslationStyle;

verus! {

/// What stands in for a description or a habitat that the catalog lacks.
pub open spec fn unavailable() -> Seq<char> {
    "Description not available"@
}

/// The description that the catalog record yields.
pub open spec fn species_description(species: PokemonSpeciesResponseDto) -> Seq<char> {
    match first_english(species.flavor_text_entries@) {
        Some(e) => clean_flavor_text(e.text@),
        None => unavailable(),
    }
}

/// The habitat label that the catalog record yields.
pub open spec fn species_habitat(species: PokemonSpeciesResponseDto) -> Seq<char> {
    match species.habitat {
        Some(h) => habitat_label(h.name@),
        None => unavailable(),
    }
}

/// Reads species from the catalog service and turns them into `Pokemon`.
pub struct PokemonRepositoryImpl {
    pokeapi_client: Arc<PokeApiClient>,
}

impl PokemonRepositoryImpl {
    pub fn new(pokeapi_client: Arc<PokeApiClient>) -> (r: PokemonRepositoryImpl) {
        PokemonRepositoryImpl { pokeapi_client }
    }

    /// The client that the catalog is read through.
    pub fn client(&self) -> (r: &PokeApiClient) {
        &self.pokeapi_client
    }

    /// The `Pokemon` that a catalog record describes: its name and rarity, its
    /// first English flavor text cleaned, its habitat's label; a missing text or
    /// habitat reads "Description not available".
    pub fn pokemon_from_species(&self, species: &PokemonSpeciesResponseDto) -> (r: Pokemon)
        ensures
            r@.name == species.name@,
            r@.description == species_description(*species),
            r@.habitat == species_habitat(*species),
            r@.is_legendary == species.is_legendary,
    {
        let description = match species.get_english_description() {
            Some(d) => d,
            None => String::from_str("Description not available"),
        };
        let habitat = match species.get_habitat() {
            Some(h) => h,
            None => String::from_str("Description not available"),
        };
        Pokemon::new(species.name.clone(), description, habitat, species.is_legendary)
    }
}

/// The key that a translation of `text` in `style` is cached under.
pub open spec fn cache_key_of(style: TranslationStyle, text: Seq<char>) -> Seq<char> {
    match style {
        TranslationStyle::Shakespeare => "shakespeare_"@ + text,
        TranslationStyle::Yoda => "yoda_"@ + text,
    }
}

/// How long a cached translation lives, in seconds.
pub const TRANSLATION_TTL_SECONDS: u64 = 300;

/// The first step of a translation: the answer found in the cache, or the
/// request to fetch one from the style-transform service.
pub enum TranslationStep {
    Cached(String),
    Fetch,
}

/// Rewrites descriptions through the style-transform service, keeping what it
/// answered in a cache.
pub struct TranslationRepositoryImpl {
    fun_translations_client: Arc<FunsTranslationsApiClient>,
    cache: TranslationCache,
}

impl TranslationRepositoryImpl {
    /// What the cache was last given for each key.
    pub closed spec fn cached(&self) -> Map<Seq<char>, Seq<char>> {
        self.cache.entries()
    }

    /// The capacity and the time to live in seconds of the cache.
    pub closed spec fn cache_settings(&self) -> (u64, u64) {
        self.cache.capacity_and_ttl()
    }

    /// A repository with an empty cache of `CACHE_CAPACITY` entries that live
    /// `TRANSLATION_TTL_SECONDS`.
    pub fn new(fun_translations_client: Arc<FunsTranslationsApiClient>) -> (r:
        TranslationRepositoryImpl)
        ensures
            r.cached().dom() == Set::<Seq<char>>::empty(),
            r.cache_settings() == (CACHE_CAPACITY, TRANSLATION_TTL_SECONDS),
    {
        TranslationRepositoryImpl {
            fun_translations_client,
            cache: TranslationCache::new(TRANSLATION_TTL_SECONDS),
        }
    }

    /// The client that translations are fetched through.
    pub fn client(&self) -> (r: &FunsTranslationsApiClient) {
        &self.fun_translations_client
    }

    /// The key that a translation of `text` in `style` is cached under.
    pub fn cache_key(style: TranslationStyle, text: &str) -> (r: String)
        ensures
            r@ == cache_key_of(style, text@),
    {
        match style {
            TranslationStyle::Shakespeare => String::from_str("shakespeare_").concat(text),
            TranslationStyle::Yoda => String::from_str("yoda_").concat(text),
        }
    }

    /// Looks the translation of `text` in `style` up in the cache. A hit is the
    /// translation last stored for that style and text; a miss asks the caller
    /// to fetch it and hand the outcome to `finish_translation`.
    pub fn begin_translation(&self, style: TranslationStyle, text: &str) -> (r: TranslationStep)
        ensures
            r matches TranslationStep::Cached(v) ==> self.cached().contains_key(
                cache_key_of(style, text@),
            ) && self.cached()[cache_key_of(style, text@)] == v@,
    {
        let key = Self::cache_key(style, text);
        match self.cache.get(key.as_str()) {
            Some(v) => TranslationStep::Cached(v),
            None => TranslationStep::Fetch,
        }
    }

    /// Takes the outcome of a fetch for `text` in `style`: a translation is
    /// stored under its key and returned; a failure is returned and nothing is
    /// stored.
    pub fn finish_translation(&mut self, style: TranslationStyle, text: &str, fetched: AppResult<
        String,
    >) -> (r: AppResult<String>)
        ensures
            r == fetched,
            match fetched {
                Ok(t) => final(self).cached() == old(self).cached().insert(
                    cache_key_of(style, text@),
                    t@,
                ),
                Err(_) => final(self).cached() == old(self).cached(),
            },
            final(self).cache_settings() == old(self).cache_settings(),
    {
        match fetched {
            Ok(t) => {
                let key = Self::cache_key(style, text);
                self.cache.insert(key, t.clone());
                Ok(t)
            },
            Err(e) => Err(e),
        }
    }
}

/// Distinct pairs of style and text are cached under distinct keys.
pub proof fn lemma_cache_keys_distinct(
    s1: TranslationStyle,
    t1: Seq<char>,
    s2: TranslationStyle,
    t2: Seq<char>,
)
    requires
        s1 != s2 || t1 != t2,
    ensures
        cache_key_of(s1, t1) != cache_key_of(s2, t2),
{
    reveal_strlit("shakespeare_");
    reveal_strlit("yoda_");
    let k1 = cache_key_of(s1, t1);
    let k2 = cache_key_of(s2, t2);
    if s1 == s2 {
        let n: int = match s1 {
            TranslationStyle::Shakespeare => 12,
            TranslationStyle::Yoda => 5,
        };
        if k1 == k2 {
            assert(t1 == k1.skip(n));
            assert(t2 == k2.skip(n));
        }
    } else {
        assert(k1[0] != k2[0]);
    }
}

/// Once the translation `t` of `text` in `style` has been stored, the cache
/// entry for that style and text holds `t`, and storing a translation `u` of
/// any other style or text afterwards leaves it holding `t`. A lookup of the
/// same style and text that hits the cache therefore yields `t` and needs no
/// fetch.
pub proof fn lemma_stored_translation_kept(
    cached: Map<Seq<char>, Seq<char>>,
    style: TranslationStyle,
    text: Seq<char>,
    t: Seq<char>,
    other_style: TranslationStyle,
    other_text: Seq<char>,
    u: Seq<char>,
)
    requires
        other_style != style || other_text != text,
    ensures
        ({
            let key = cache_key_of(style, text);
            let after = cached.insert(key, t);
            let later = after.insert(cache_key_of(other_style, other_text), u);
            &&& after.contains_key(key) && after[key] == t
            &&& later.contains_key(key) && later[key] == t
        }),
{
    lemma_cache_keys_distinct(style, text, other_style, other_text);
}

} // verus!
