//! Normalization and planning logic for extracting an anime catalog
//! (titles, episode lists, video sources) from rendered site markup.

pub mod dom;
pub mod error;
pub mod extract;
pub mod normalize;
pub mod number;
pub mod ordering;
pub mod records;
pub mod render;
pub mod resolver;
pub mod session;
pub mod site;
pub mod sources;
pub mod text;
pub mod transport;
pub mod unique;
