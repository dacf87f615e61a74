use vstd::prelude::*;

use crate::text::{
    chars_of, replace_all, replace_chars, same_chars, string_of, title_case, title_words, trim,
    trim_chars,
};

verus! {

/// A species record as the catalog service describes it.
#[derive(Debug, Clone)]
pub struct PokemonSpeciesResponseDto {
    pub id: i32,
    pub name: String,
    pub order: i32,
    pub gender_rate: i32,
    pub capture_rate: i32,
    pub base_happiness: i32,
    pub is_baby: bool,
    pub is_legendary: bool,
    pub is_mythical: bool,
    pub hatch_counter: i32,
    pub has_gender_differences: bool,
    pub forms_switchable: bool,
    pub growth_rate: NamedApiResource,
    pub pokedex_numbers: Vec<PokemonDexEntry>,
    pub egg_groups: Vec<NamedApiResource>,
    pub color: NamedApiResource,
    pub shape: NamedApiResource,
    pub evolves_from_species: Option<NamedApiResource>,
    pub evolution_chain: ApiResource,
    pub habitat: Option<NamedApiResource>,
    pub generation: NamedApiResource,
    pub names: Vec<Name>,
    pub flavor_text_entries: Vec<FlavorText>,
    pub form_descriptions: Vec<Description>,
    pub genera: Vec<Genus>,
    pub varieties: Vec<PokemonVariety>,
}

/// A reference to another catalog resource, with its name.
#[derive(Debug, Clone)]
pub struct NamedApiResource {
    pub name: String,
    pub url: String,
}

/// A reference to another catalog resource.
#[derive(Debug, Clone)]
pub struct ApiResource {
    pub url: String,
}

#[derive(Debug, Clone)]
pub struct PokemonDexEntry {
    pub entry_number: i32,
    pub pokedex: NamedApiResource,
}

#[derive(Debug, Clone)]
pub struct Name {
    pub name: String,
    pub language: NamedApiResource,
}

/// One flavor text of a species, in one language.
#[derive(Debug, Clone)]
pub struct FlavorText {
    pub text: String,
    pub language: NamedApiResource,
    pub version: NamedApiResource,
}

#[derive(Debug, Clone)]
pub struct Description {
    pub description: String,
    pub language: NamedApiResource,
}

#[derive(Debug, Clone)]
pub struct Genus {
    pub genus: String,
    pub language: NamedApiResource,
}

#[derive(Debug, Clone)]
pub struct PokemonVariety {
    pub is_default: bool,
    pub pokemon: NamedApiResource,
}

/// Whether the entry's language tag is `en`.
pub open spec fn is_english(entry: FlavorText) -> bool {
    entry.language.name@ == seq!['e', 'n']
}

/// The first English entry, if there is one.
pub open spec fn first_english(entries: Seq<FlavorText>) -> Option<FlavorText>
    decreases entries.len(),
{
    if entries.len() == 0 {
        None
    } else if is_english(entries[0]) {
        Some(entries[0])
    } else {
        first_english(entries.skip(1))
    }
}

/// Flavor text with its escaped and literal line breaks, form feeds and carriage
/// returns turned into spaces, trimmed at both ends.
pub open spec fn clean_flavor_text(t: Seq<char>) -> Seq<char> {
    let sp = seq![' '];
    trim(
        replace_all(
            replace_all(
                replace_all(replace_all(replace_all(t, seq!['\\', 'n'], sp), seq!['\n'], sp), seq!['\u{c}'], sp),
                seq!['\\', 'f'],
                sp,
            ),
            seq!['\r'],
            sp,
        ),
    )
}

/// The label of a habitat slug: hyphens read as spaces, each word capitalized,
/// words joined by single spaces.
pub open spec fn habitat_label(slug: Seq<char>) -> Seq<char> {
    title_words(replace_all(slug, seq!['-'], seq![' ']))
}

fn clean_text(t: &str) -> (r: String)
    ensures
        r@ == clean_flavor_text(t@),
{
    let sp = vec![' '];
    let esc_n = vec!['\\', 'n'];
    let nl = vec!['\n'];
    let ff = vec!['\u{c}'];
    let esc_f = vec!['\\', 'f'];
    let cr = vec!['\r'];
    assert(sp@ == seq![' ']);
    assert(esc_n@ == seq!['\\', 'n']);
    assert(nl@ == seq!['\n']);
    assert(ff@ == seq!['\u{c}']);
    assert(esc_f@ == seq!['\\', 'f']);
    assert(cr@ == seq!['\r']);
    let s = chars_of(t);
    let s = replace_chars(&s, &esc_n, &sp);
    let s = replace_chars(&s, &nl, &sp);
    let s = replace_chars(&s, &ff, &sp);
    let s = replace_chars(&s, &esc_f, &sp);
    let s = replace_chars(&s, &cr, &sp);
    let s = trim_chars(&s);
    string_of(&s)
}

impl PokemonSpeciesResponseDto {
    /// The cleaned text of the first English flavor text entry; `None` when no
    /// entry is English.
    pub fn get_english_description(&self) -> (r: Option<String>)
        ensures
            match first_english(self.flavor_text_entries@) {
                None => r is None,
                Some(e) => r is Some && r->0@ == clean_flavor_text(e.text@),
            },
    {
        let entries = &self.flavor_text_entries;
        let en = vec!['e', 'n'];
        assert(en@ == seq!['e', 'n']);
        let mut i: usize = 0;
        assert(entries@.skip(0) == entries@);
        while i < entries.len()
            invariant
                en@ == seq!['e', 'n'],
                entries@ == self.flavor_text_entries@,
                i <= entries.len(),
                first_english(entries@.skip(i as int)) == first_english(entries@),
            decreases entries.len() - i,
        {
            let entry = &entries[i];
            let ghost rest = entries@.skip(i as int);
            assert(rest.len() > 0 && rest[0] == entries@[i as int]);
            if same_chars(&chars_of(entry.language.name.as_str()), &en) {
                return Some(clean_text(entry.text.as_str()));
            }
            assert(rest.skip(1) == entries@.skip(i + 1));
            i = i + 1;
        }
        None
    }

    /// The habitat's label, if the species has a habitat.
    pub fn get_habitat(&self) -> (r: Option<String>)
        ensures
            match self.habitat {
                None => r is None,
                Some(h) => r is Some && r->0@ == habitat_label(h.name@),
            },
    {
        match &self.habitat {
            None => None,
            Some(h) => {
                let hyphen = vec!['-'];
                let space = vec![' '];
                assert(hyphen@ == seq!['-']);
                assert(space@ == seq![' ']);
                let s = replace_chars(&chars_of(h.name.as_str()), &hyphen, &space);
                Some(string_of(&title_case(&s)))
            },
        }
    }
}

} // verus!
