//! A flag store: one boolean that starts out `false`, can be read, and can be
//! flipped.
//!
//! The store is meant to sit behind a contract runtime that calls one
//! operation at a time and persists the state between calls. Everything the
//! store itself does is stated in the contracts of [`Deploycash`] and proved;
//! the algebraic consequences of those contracts are collected in [`laws`].

pub mod flag;
pub mod laws;

pub use flag::Deploycash;
