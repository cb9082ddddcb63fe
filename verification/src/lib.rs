//! Fixture data for database columns.
//!
//! Given the identifier of a column's SQL type and a seeded ChaCha generator,
//! the library produces one synthetic value of that type. Integers, booleans,
//! text, dates and times are produced here; floating-point data is described
//! by a [`FloatDraw`], which the caller carries out on the same generator.

pub mod rng;
pub mod type_id;
pub mod utils;
pub mod value;

pub use type_id::TypeIdentifier;
pub use utils::{apply_builder, create_closure, generate_random_data_for_oid, DataBuilder};
pub use value::{FloatDraw, FloatKind, GeneratedValue};
