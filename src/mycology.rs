//! The mycology pages: the dataset parser and the page selection.

pub mod generate;
pub mod parse;
