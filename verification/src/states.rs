//! The records that the marketplace keeps.

pub mod credential;
pub mod listing;
pub mod paper_access_pass;
pub mod paper_entry;
pub mod platform;
