//! An association list used as a map: a `Vec<(K, V)>` searched by key
//! equality alone, with an entry API for lookup-then-mutate in one scan.

pub mod laws;
pub mod lenient;
pub mod lookup;
pub mod pushable;
pub mod vec;

pub use vec::{AssocExt, AssocStrictExt};
