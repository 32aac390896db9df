//! Listing and extraction of zip archives: signature validation, ordered entry
//! scanning, human-readable listings and contained extraction plans.

pub mod text;
pub mod size;
pub mod signature;
pub mod archive;
pub mod listing;
pub mod extract;
pub mod pipeline;
