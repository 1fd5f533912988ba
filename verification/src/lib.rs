//! Request validation, normalisation and bookkeeping rules of the Atlas
//! family-office backend, verified with Verus.
use vstd::prelude::*;

pub mod auth;
pub mod config;
pub mod copilot;
pub mod db;
pub mod documents;
pub mod entities;
pub mod errors;
pub mod funds;
pub mod health;
pub mod ids;
pub mod models;
pub mod organization;
pub mod portfolio;
pub mod review;
pub mod security;
pub mod sponsors;
pub mod text;

verus! {

} // verus!
