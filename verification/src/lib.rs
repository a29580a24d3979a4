//! # Seventy
//!
//! Seventy is a newtype sanitizer and validator. A newtype wraps one inner
//! value and can only be constructed through two pipelines: sanitizers, which
//! rewrite the candidate value, and validators, which accept or reject what
//! the sanitizers left. Sanitization always runs first, and a rejected
//! construction hands the sanitized value back.
//!
//! The crate has two halves, and both are verified.
//!
//! - [`traits`] and [`builtins`] are what a program runs: the traits that
//!   newtypes and pipeline steps implement, each with the contract that its
//!   implementations are held to, and a catalog of ready-made steps.
//!   [`refined`] makes a newtype out of a recipe of steps, and [`storage`]
//!   keeps a pipeline either once for all uses or anew for each.
//! - [`expansion`] is what the `seventy` attribute runs at compile time: it
//!   admits a declaration, resolves the upgrades it asks for into an ordered
//!   plan of code units, and renders the plan as the source text of the
//!   implementations.
//!
//! Validators only ever answer valid or invalid. There is no reason attached
//! to a rejection.
#![allow(non_camel_case_types)]

pub mod builtins;
pub mod expansion;
pub mod refined;
pub mod storage;
pub mod traits;
