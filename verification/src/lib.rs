//! Verified core of a central-limit-order-book toolkit for the Miden rollup: the arithmetic
//! of partially fillable swap notes, the layout of the notes' inputs and tags, the advice
//! data for checking Falcon signatures, the multisig account's storage map, the building of
//! notes, accounts and code libraries with the Miden crates, and the decisions of the
//! client's setup and polling loops.

pub mod field;
pub mod falcon;
pub mod swap;
pub mod setup;
pub mod polling;
pub mod multisig;
pub mod notes;
pub mod note_build;
pub mod library;
pub mod accounts;
