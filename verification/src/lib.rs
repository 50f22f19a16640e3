//! The request-dispatch core of Ocean, the server of a community site.
//!
//! Every operation of the site is a method of one JSON endpoint. This crate
//! holds what the server decides on the way from a request to its response,
//! and what its background tasks decide, with each decision stated as a
//! contract and proved:
//!
//! - [`api`]: the error model, the access policy, the token cache, the
//!   registry of methods and the router;
//! - [`json_rpc`]: the request and response envelopes;
//! - [`controller`]: what the handlers share, and the rules of single handlers;
//! - [`telegram_bot`]: the notifications that go out to the chat API;
//! - [`watchdog`], [`trash_monitor`]: the two periodic tasks;
//! - [`config`], [`app`], [`model`], [`types`], [`text`]: settings, start-up
//!   order, rows, shared types and text helpers.
//!
//! The crate reads no socket, file or database. Whoever runs it accepts the
//! connections, reads the bodies, runs the handlers on the store and sends
//! what this crate prepares.

pub mod api;
pub mod app;
pub mod config;
pub mod controller;
pub mod json_rpc;
pub mod model;
pub mod telegram_bot;
pub mod text;
pub mod trash_monitor;
pub mod types;
pub mod watchdog;
