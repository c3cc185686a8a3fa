//! Flash controller driver: unlock, erase, program, read.

pub mod driver;
pub mod geometry;
pub mod laws;
pub mod memory;
pub mod protocol;
pub mod registers;

pub use driver::Flash;
pub use geometry::{page_to_address, sector_to_address, Bank, Family, Geometry};
pub use registers::{
    clear_error_flags, AckRegister, Action, ControlBit, Error, ErrorFlag, Event, Status,
};
