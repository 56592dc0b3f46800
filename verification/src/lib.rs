//! Embeds a script payload into a prebuilt ELF shared library.
//!
//! A prebuilt library carries a fixed-layout sentinel structure. The engine in
//! [`binary`] appends a data section that holds the payload and rewrites the
//! sentinel so that it describes where the payload lies.

pub mod bytes;
pub mod error;
pub mod sentinel;
pub mod layout;
pub mod elf;
pub mod xz;
pub mod binary;
pub mod config;
pub mod text;
pub mod json_text;
pub mod payload;
pub mod builder;
pub mod strings;
pub mod order;
pub mod release;
pub mod json;
pub mod search;
