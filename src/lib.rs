//! Small verified building blocks for working with borrowed text, optional
//! lookups and closed sets of alternatives.
pub mod lookup;
pub mod message;
pub mod text;
