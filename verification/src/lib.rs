//! Configuration model and pipeline assembly for token sampling.
//!
//! A [`config::SamplerConfig`] describes one sampling strategy together with
//! shared repetition-penalty and grammar settings.  The builder in
//! [`pipeline`] turns such a configuration into an ordered sequence of
//! stage descriptors, ready to be realised against a concrete model runtime.

pub mod config;
pub mod grammar;
pub mod pipeline;
