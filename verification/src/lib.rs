//! Named identity profiles: a store of git identities with optional SSH and
//! token settings, the rules for resolving and adding profiles, and the
//! decision logic for loading a store and applying a profile.

pub mod error;
pub mod load;
pub mod paths;
pub mod profile;
pub mod store;
pub mod switch;
pub mod text;
