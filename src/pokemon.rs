use vstd::prelude::*;

use crate::text::{chars_of, same_chars};

verus! {

/// An enriched species: name, description, habitat label and rarity.
#[derive(Debug, Clone, PartialEq, Eq)]
pub struct Pokemon {
    name: String,
    description: String,
    habitat: String,
    is_legendary: bool,
}

/// What a `Pokemon` holds, as plain values.
pub struct PokemonView {
    pub name: Seq<char>,
    pub description: Seq<char>,
    pub habitat: Seq<char>,
    pub is_legendary: bool,
}

impl View for Pokemon {
    type V = PokemonView;

    closed spec fn view(&self) -> PokemonView {
        PokemonView {
            name: self.name@,
            description: self.description@,
            habitat: self.habitat@,
            is_legendary: self.is_legendary,
        }
    }
}

/// The habitat label that marks a cave dweller.
pub open spec fn cave_label() -> Seq<char> {
    seq!['c', 'a', 'v', 'e']
}

impl Pokemon {
    pub fn new(name: String, description: String, habitat: String, is_legendary: bool) -> (r:
        Pokemon)
        ensures
            r@.name == name@,
            r@.description == description@,
            r@.habitat == habitat@,
            r@.is_legendary == is_legendary,
    {
        Pokemon { name, description, habitat, is_legendary }
    }

    pub fn name(&self) -> (r: &str)
        ensures
            r@ == self@.name,
    {
        self.name.as_str()
    }

    pub fn description(&self) -> (r: &str)
        ensures
            r@ == self@.description,
    {
        self.description.as_str()
    }

    pub fn habitat(&self) -> (r: &str)
        ensures
            r@ == self@.habitat,
    {
        self.habitat.as_str()
    }

    pub fn is_legendary(&self) -> (r: bool)
        ensures
            r == self@.is_legendary,
    {
        self.is_legendary
    }

    /// Whether the habitat label is exactly `cave` (case-sensitive).
    pub fn is_cave(&self) -> (r: bool)
        ensures
            r == (self@.habitat == cave_label()),
    {
        let cave = vec!['c', 'a', 'v', 'e'];
        assert(cave@ == cave_label());
        same_chars(&chars_of(self.habitat.as_str()), &cave)
    }

    /// Replaces the description; the other fields stay.
    pub fn set_translated_description(&mut self, new_description: String)
        ensures
            final(self)@.description == new_description@,
            final(self)@.name == old(self)@.name,
            final(self)@.habitat == old(self)@.habitat,
            final(self)@.is_legendary == old(self)@.is_legendary,
    {
        self.description = new_description;
    }
}

} // verus!
