//! Streaming decoder for an OpenAI-compatible `responses` event stream.
//!
//! Bytes arrive from a transport, an external framer cuts them into discrete
//! `data:` records, and this crate turns each record into a strongly typed
//! event: it parses the record's JSON payload, dispatches on the `type`
//! discriminator, and rewrites every string leaf into an owned handle that
//! shares the record's backing buffer where the leaf is a verbatim subslice
//! of it.  The stream adapter tracks the Active/Terminated state and applies
//! the `[DONE]` sentinel check.

pub mod adapter;
pub mod convert;
pub mod decode;
pub mod event;
pub mod json;
pub mod parse;
pub mod raw;
pub mod request;
pub mod text;
pub mod tool_choice;
