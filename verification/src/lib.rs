//! Builds the two instructions that ask a token-metadata program to create a
//! metadata account and a master edition: the ordered account references and
//! the exact payload bytes, with the layout stated and proved.
//!
//! - `address`, `params`: what a caller supplies.
//! - `accounts`: the ordered account references of each instruction.
//! - `wire`, `payload`: the bytes of each field and of each payload.
//! - `decode`: the reader of those bytes, and the proofs that reading undoes
//!   writing and writing undoes reading.
//! - `instruction`: the assembled instruction and its builder.
//! - `well_known`: the chain's fixed accounts.
//! - `program`: the instructions of one mint.

pub mod accounts;
pub mod address;
pub mod decode;
pub mod error;
pub mod instruction;
pub mod params;
pub mod payload;
pub mod program;
pub mod well_known;
pub mod wire;
