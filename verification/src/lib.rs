//! Core simulation layer of a turn-based tactics game.
//!
//! The library maintains an authoritative grid map over a tile catalog,
//! tracks unit occupancy on that grid, resolves pointer rays into grid-cell
//! selections, and drives the turn-phase state machine that governs which
//! player actions are legal.  Rendering, windowing and raw device input are
//! external collaborators: they hand this library plain values (fixed-point
//! world coordinates, cell indices, event records) and take plain values
//! back.

pub mod animation;
pub mod directory;
pub mod errors;
pub mod map;
pub mod occupancy;
pub mod phase;
pub mod probe;
pub mod select;
pub mod shared;
pub mod tick;
pub mod unit;
