//! Read-only access to file contents, either through a memory mapping or an
//! owned buffer, with the decision of how many bytes to read made by
//! verified logic.
pub mod backend;
pub mod cursor;
pub mod handle;
pub mod laws;
pub mod length;
