//! A client library for a print-and-mail web service: it encodes PDF
//! documents as print jobs, builds the service's requests, interprets its
//! replies, keeps the store of credential profiles, and decides what a batch
//! run and a directory watch do next.
pub mod types;
pub mod text;
pub mod codec;
pub mod api;
pub mod config;
pub mod batch;
pub mod watch;
pub mod commands;
