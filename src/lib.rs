//! A registry of non-fungible tokens: sequential identifiers, one record and
//! one owner per token, and owner-only transfer and renaming.

pub mod account;
pub mod model;
pub mod token;
pub mod registry;
pub mod laws;
