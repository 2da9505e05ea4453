//! Verifying that the interface description (IDL) which a Solana program keeps on chain is the
//! one that a public repository holds.
//!
//! A program keeps its IDL in an account of the program-metadata program. A second account, the
//! IDL verification record, names the repository, the commit and the path from which that IDL
//! can be reproduced. This crate decides everything about the two accounts that needs no
//! input or output:
//!
//! - [`metadata`] and [`path`]: which records are valid, and which file one names;
//! - [`authority`] and [`target`]: who may speak for a program, and where the accounts lie;
//! - [`account`], [`content`] and [`codec`]: whether a fetched account is the one asked for, and
//!   what it says;
//! - [`outcome`] and [`pairing`]: whether the IDL is the repository's, and whether its record goes
//!   with the one of the program's build;
//! - [`instruction`] and [`upload`]: what is sent to create or update a record.
//!
//! Where an account, a URL or a file has to be fetched on the way, a function says so in its
//! result, and another one takes what was fetched.
pub mod account;
pub mod address;
pub mod authority;
pub mod bytes;
pub mod codec;
pub mod content;
pub mod instruction;
pub mod json;
pub mod metadata;
pub mod outcome;
pub mod pairing;
pub mod path;
pub mod target;
pub mod text;
pub mod upload;
