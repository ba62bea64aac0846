//! Core of a file-backed note browser.
//!
//! The library holds what the browser decides: how documents are indexed,
//! ordered, searched and cached, what the keys mean in each mode, and what a
//! session does with actions and with the outcomes of outside work.
//! Everything here computes on plain values; reading the disk, the terminal
//! and the clipboard is left to the program that embeds the library.
//!
//! - [`text`], [`paths`], [`order`]: texts as character sequences, paths as
//!   lists of names, stable ordering by keys.
//! - [`data`]: documents, directory entries and the index built from a walk.
//! - [`search`]: the three searches.
//! - [`app`]: the session state; [`cache`], [`browse`], [`filter`]: the body
//!   cache, the list on screen, and searches applied to the session.
//! - [`input`], [`session`], [`events`]: keys, actions, events.
//! - [`ops`]: where new entries go, and the steps of a synchronisation.
//! - [`view`]: the texts the screen shows.
//! - [`config`], [`errors`]: settings and failures.

pub mod app;
pub mod browse;
pub mod cache;
pub mod config;
pub mod data;
pub mod errors;
pub mod events;
pub mod filter;
pub mod input;
pub mod ops;
pub mod order;
pub mod paths;
pub mod search;
pub mod session;
pub mod text;
pub mod view;
