//! Core engine of a byte-transformation "recipe" builder.
//!
//! A recipe is an ordered sequence of module instances (encoders, decoders,
//! ciphers). The library provides the module catalogue, the typed-argument
//! decoding that feeds module parameters, the cipher-mode dispatch, the
//! short-circuiting pipeline executor, and the recipe edit model. Rendering
//! and event handling live outside the library.

pub mod errors;
pub mod encoding;
pub mod input;
pub mod aes_backend;
pub mod crypto;
pub mod module;
pub mod pipeline;
pub mod editor;
