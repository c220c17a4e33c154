//! A fallback combinator for iterators: the items of the first iterator, or,
//! when it has none, the items of the second.

pub mod hint;
pub mod laws;
pub mod model;
pub mod or;
mod source;

pub use crate::model::State;
pub use crate::or::{Or, OrIterator};
