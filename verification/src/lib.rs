//! Board support for the Raspberry Pi 3 and 4: the memory map, the virtual
//! memory layout, the driver bring-up order and the consoles of a board,
//! with their invariants stated and proved.

pub mod board;
pub mod console;
pub mod driver;
pub mod layout;
pub mod memory_map;
