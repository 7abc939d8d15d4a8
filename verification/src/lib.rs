//! Core of a desktop-wallpaper rotator backed by a remote movie/TV catalog.
//!
//! The library holds the verified logic: the configuration record and its
//! invariant, the token-to-session authentication state machine, the request
//! builder for the catalog's endpoints, the selection engine that narrows a
//! configuration and the fetched candidate lists down to one image, and the
//! mapping from a symbolic fetch period to a wall-clock interval.  Network
//! transport, persistence and the call that paints the wallpaper live outside
//! the library and hand it plain values.

pub mod auth;
pub mod config;
pub mod numfmt;
pub mod pipeline;
mod rng;
pub mod select;
pub mod schedule;
pub mod tmdb;
