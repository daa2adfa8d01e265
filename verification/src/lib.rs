//! Anthropic Messages API adapter for a provider-independent chat engine.
//!
//! The engine speaks of requests, responses and stream events that no provider knows
//! ([`normalized`]). This library turns a request into the body of a `POST {base_url}/messages`
//! call ([`encode`]), and the answer into a response ([`decode`]) or, where it arrives in pieces,
//! into events ([`sse`], [`stream`]). What a failed call means is in [`status`], the endpoint and
//! its headers are in [`adapter`] and [`headers`], and what an operator configures is in [`config`].
//!
//! The Messages API has no structured output of its own. Where the operator declares an output
//! schema, the model is offered a tool called `respond` whose input the schema describes, and a
//! call of that tool is unwrapped into the content of the response.
//!
//! What holds over any number of calls is stated and proved in [`laws`].

pub mod adapter;
pub mod config;
pub mod decode;
pub mod encode;
pub mod error;
pub mod headers;
pub mod json;
pub mod laws;
pub mod normalized;
pub mod sse;
pub mod status;
pub mod stream;
pub mod text;
pub mod value;

pub use adapter::AnthropicAdapter;
pub use config::AnthropicChatSpec;
