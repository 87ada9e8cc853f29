//! From a question to an answer about a graph.
//!
//! A question in natural language, alone or at the end of a conversation, is
//! turned into a Cypher query by a language model, the query is run against a
//! property graph, and the model words an answer from the result. This
//! library is the part that decides: which roles a conversation may use,
//! which provider serves a model, what a model is asked, what is taken from
//! its answer, and how one stage follows another or ends the run. It performs
//! no network call. A run says which call is due, and whoever performs the
//! call reports back how it went.
//!
//! The functions carry contracts that Verus proves of their bodies. The few
//! calls into code that is not verified are gathered in `outside`.

pub mod client;
pub mod conversation;
pub mod error;
pub mod executor;
pub mod generator;
pub mod json;
pub mod laws;
pub mod outside;
pub mod pipeline;
pub mod provider;
pub mod response;
pub mod schema;
pub mod synthesizer;
pub mod text;

pub use client::{ClientOptions, TextToCypher};
pub use conversation::Message;
pub use response::TextToCypherResponse;
