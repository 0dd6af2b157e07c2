//! Bulk import engine for the voting store.

pub mod decoded;
pub mod envelope;
pub mod error;
pub mod genesis;
pub mod journal;
pub mod load;
pub mod loaders;
pub mod models;
pub mod propagate;
pub mod protocol;
pub mod resolve;
pub mod text;
pub mod votes;
