//! Bindings to the firmware interface of a freestanding boot program: status
//! codes, table headers, console protocols and the system table, together with
//! the decisions that a program makes when it drives them.

pub mod console;
pub mod crc;
pub mod entry;
pub mod header;
pub mod layout;
pub mod status;
pub mod system;
