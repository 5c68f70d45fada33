//! Verified core of a hiring-marketplace search service.
//!
//! The library models the service's query language and plans every search:
//! it coerces untyped request parameters into typed values, builds the
//! boolean query tree that is sent to the document-search engine, renders
//! that tree to its on-wire JSON, decides authentication, and carries the
//! typed records (talents, scores, configuration) that the service indexes.
//! The surrounding process (HTTP listener, engine transport, configuration
//! files) lives outside the library and talks to it in plain values.

pub mod auth;
pub mod company;
pub mod config;
pub mod filters;
pub mod handlers;
pub mod index_settings;
pub mod json;
pub mod laws;
pub mod match_queries;
pub mod monitor;
pub mod params;
pub mod query;
pub mod score;
pub mod search;
pub mod talent;
pub mod terms;
pub mod text;
pub mod user;
