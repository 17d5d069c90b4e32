//! Generation of database access for entity structs on PostgreSQL.
//!
//! From an entity's declaration (its table, its fields and which of them are
//! identifiers or defaultable, and its relationships) the library builds the
//! SQL of every operation together with the order in which its parameters are
//! bound, the key of the entity, the companion struct used to create it with
//! database defaults, and one accessor for each relationship.
use vstd::prelude::*;

pub mod defaultable;
pub mod entity;
pub mod ir;
pub mod keys;
pub mod query;
pub mod relationships;
pub mod text;

verus! {

} // verus!
