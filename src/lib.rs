//! Account identifiers that are checked for validity when they are built,
//! with their text and binary encodings.

pub mod syntax;
pub mod account;
pub mod binary;
pub mod text;
