//! Filters the entries of a tar stream by path and re-emits the kept ones
//! with their header blocks unchanged.
pub mod file_type;
pub mod filter;
pub mod header;
pub mod tar2items;
pub mod config;
