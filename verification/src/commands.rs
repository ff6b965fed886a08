//! What the command line tool computes: listing and searching the register table, turning
//! register arguments into read requests, and finding the register that a write names.
pub mod registers;
pub mod read;
pub mod write;
