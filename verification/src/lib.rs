//! A schema-versioned state engine: an ordered store of tagged schema
//! generations, typed accessors bound to fixed slots, one-shot migrations,
//! and an owner guard on every mutating entry point.

pub mod aux_map;
pub mod contract;
pub mod error;
pub mod laws;
pub mod lifecycle;
pub mod model;
pub mod render;
pub mod schema;
pub mod text;
pub mod version_store;
