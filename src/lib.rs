//! Species lookup enriched with a stylized description.
//!
//! The catalog record of a species is reduced to a `Pokemon` (its English
//! description cleaned, its habitat labelled); a policy on habitat and rarity
//! picks the style its description is rewritten in; rewritten texts are kept in
//! a time-limited cache; a failed rewrite leaves the description as it was.
//! Network exchanges are left to the caller, which hands their outcomes to the
//! functions here.

pub mod text;

pub mod error;
pub mod pokemon;

pub mod species;
pub mod translations;

pub mod cache;
pub mod clients;
pub mod repositories;

pub mod config;
pub mod responses;
pub mod use_cases;
