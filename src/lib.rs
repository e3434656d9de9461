//! A small library callable from C, together with the generator that renders
//! its exported surface as a C header.
//!
//! - `abi`: the exported functions and data layouts, and their declarations.
//! - `types`: the model of exported declarations and the types they use.
//! - `render`: dialects, and the C text of each declaration.
//! - `surface`: the ordered set of declarations and the whole header.
//! - `generator`: header configuration, output directory, the file produced.
//! - `text`: joining text, and where each piece lands.
//! - `laws`: what holds of every header produced.

pub mod abi;
pub mod generator;
pub mod laws;
pub mod render;
pub mod surface;
pub mod text;
pub mod types;
