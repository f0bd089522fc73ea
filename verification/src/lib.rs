//! Register a shell command to run automatically at login.
//!
//! The library is the platform-neutral core of a startup-entry manager: a
//! quote-aware command tokenizer, one artifact codec per supported platform,
//! a collision-free identifier allocator, and the add/list/remove planning
//! that ties them together. All filesystem and process work is left to the
//! caller, which hands the library plain values (file names and file
//! contents) and receives plain values back.

pub mod codec;
pub mod laws;
pub mod linux;
pub mod macos;
pub mod parser;
pub mod platform;
pub mod store;
pub mod text;
pub mod windows;

pub use codec::{decode_entry, decode_first_line, encode, read_first_line};
pub use parser::{extract_name_from_cmd, parse_command};
pub use platform::Platform;
pub use store::{Removal, add_item, find_writable_path, get_items_list, remove_items};

use vstd::prelude::*;

verus! {

/// The error taxonomy of the library.
///
/// `InvalidCommand` is reported before any side effect would occur;
/// `AllocationExhausted` means every candidate file name for a base name is
/// already taken.
#[derive(Clone, Copy, Debug, PartialEq, Eq, Structural)]
pub enum StartupError {
    InvalidCommand,
    AllocationExhausted,
}

} // verus!
