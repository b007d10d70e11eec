//! A pretty-printing engine for a typed item graph describing a library's
//! public API: items, type expressions, generics and bounds are lowered into
//! ordered sequences of classified tokens that a page renderer decorates with
//! cross-references and layout.

pub mod anchor;
pub mod items;
pub mod langstring;
pub mod laws;
pub mod model;
pub mod pp;
pub mod token;
