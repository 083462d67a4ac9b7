//! A small translation-and-speech service core.
//!
//! The service lets a caller translate text between a fixed set of languages
//! and synthesize the translated text into audio. The two provider calls it
//! depends on (text translation, text-to-speech) live at the network edge;
//! this library holds everything the service itself decides: the language
//! catalog and its provider-facing encodings, the fold of each provider's
//! fault surface into the two-valued error taxonomy, the permissive handling
//! of missing voice ids and audio payloads, and the short-circuiting
//! translate / resolve-voice / synthesize chain behind the Synthesize
//! operation.

pub mod adapters;
pub mod errors;
pub mod language;
pub mod service;
