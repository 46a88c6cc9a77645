//! Game-data lookup tables for champions and runes, and the rewriting of
//! internal asset paths into publicly fetchable URLs.

pub mod asset;
pub mod index;
pub mod champions;
pub mod runes;
pub mod repository;
