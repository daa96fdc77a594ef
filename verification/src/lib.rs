//! An engine for interactive, stateful chat messages, verified with Verus.
//!
//! A message of this kind is rebuilt in place whenever its owner clicks one
//! of its controls or submits one of its forms. The engine holds the state
//! of each such message and decides, for every click and every form, what
//! becomes of the state and what the platform is asked to do; it never
//! talks to the platform itself.
//!
//! - [`pages`] is the pager, [`pagination`] what a paged message answers,
//!   [`top_if`] a paged list.
//! - [`simulate`], [`simulate_map`], [`simulate_forms`], [`simulate_page`]
//!   and [`simulate_components`] make up the score simulation.
//! - [`active`], [`interaction`] and [`embed`] hold what goes in and out;
//!   [`active_message`] and [`registry`] hand events to messages.
//! - [`cached_attributes`] caches difficulty attributes.
//! - [`args`], [`badges`], [`cards`], [`graphs`], [`match_live`],
//!   [`recent_list`] and [`recent_scores`] hold what the commands decide.
//! - [`text`], [`sorting`] and [`mods`] are what the others build on.

pub mod active;
pub mod active_message;
pub mod args;
pub mod badges;
pub mod cached_attributes;
pub mod cards;
pub mod embed;
pub mod graphs;
pub mod interaction;
pub mod match_live;
pub mod mods;
pub mod pages;
pub mod pagination;
pub mod recent_list;
pub mod recent_scores;
pub mod registry;
pub mod simulate;
pub mod simulate_components;
pub mod simulate_forms;
pub mod simulate_map;
pub mod simulate_page;
pub mod sorting;
pub mod text;
pub mod top_if;
