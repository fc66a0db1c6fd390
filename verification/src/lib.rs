//! Typed, verified access to the work RAM of a Zelda 3 engine.
//!
//! The game state lives in one flat byte array. Each view in
//! [`ram::semantic`] gives a subsystem named getters and setters over the
//! fixed addresses it owns; every method states exactly which bytes it reads
//! and which it writes.

pub mod ram;
pub mod types;
