use vstd::prelude::*;

pub mod identity;
pub mod amount;
pub mod admins;
pub mod ledger;
pub mod distribution;
pub mod service;
