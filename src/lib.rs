//! Persistence of a single editor document: where it is kept, and what the
//! caller is told once it has been written or read.

pub mod outcome;
pub mod path;

pub use outcome::{finish_load, finish_save, greet, saved_confirmation};
pub use path::resolve_default_path;
