//! A retained-mode widget tree driven by a reducer-based state container.
//!
//! The crate has three layers. `state` holds the stores: a reducer folds
//! messages into a single state value, and selectors derive values from
//! the current state without caching. `shaper` and `text` turn a string
//! into a positioned glyph run through a shaping collaborator. `component`
//! and `widget` tie both together: components cache their visual
//! representation during `update` — a dynamic label re-runs layout only
//! when its selected text actually changes — and replay the cache during
//! `draw` into the `display` list builder, children in insertion order.
//! `counter` is the demo state: an integer count, a message that
//! increments it, and a projection rendering the count as decimal text.
//! `geometry` holds the integer coordinate types everything measures in.

pub mod component;
pub mod counter;
pub mod display;
pub mod geometry;
pub mod shaper;
pub mod state;
pub mod text;
pub mod widget;
