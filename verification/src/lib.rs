//! Typed, checked access to objects and virtual dispatch tables that live in a
//! host process, together with the bookkeeping needed to intercept entries of
//! those tables and to share state between the interception callbacks.
//!
//! Addresses are plain 64-bit machine words. Nothing in this crate touches
//! foreign memory itself: every operation works on a [`memory::Memory`] image
//! or on plain values, so that the rules are stated and proved once and the
//! caller applies the effects.

pub mod command;
pub mod console;
pub mod entity;
pub mod error;
pub mod global;
pub mod hit_group;
pub mod hooks;
pub mod input;
pub mod layout;
pub mod managed;
pub mod material;
pub mod memory;
mod shared;
pub mod state;
pub mod theme;
