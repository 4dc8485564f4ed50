//! The entry API, map operations and views over `Vec<(K, V)>`.

mod entry;
mod ext;
mod views;

pub use entry::{Entry, OccupiedEntry, VacantEntry};
pub use ext::{AssocExt, AssocStrictExt};
pub use views::{keys_of, values_of, IntoKeys, IntoValues, Keys, Values, ValuesMut};
