//! What the catalogs answer, as plain data, and what is read off links.

pub mod spotify;
pub mod youtube;
