//! The document tree of the Native export dialect, and the typed node
//! constructors that build each node from one tag's attributes.

pub mod common;
pub mod subject_native;
