//! A line editor's core: symbolic line addresses, the command grammar, the
//! resolution of addresses against a buffer, and the commands' effect on the
//! buffer and the cursor.

pub mod address;
pub mod digits;
pub mod command;
pub mod text;
pub mod state;
pub mod editor;
pub mod laws;
