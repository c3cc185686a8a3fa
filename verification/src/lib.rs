//! Verified drivers for two STM32 peripherals.
//!
//! [`flash`] is a driver for the on-chip flash controller. It is written
//! without any hardware access of its own: every operation is a state machine
//! that names the next register access and is resumed with what that access
//! returned. The platform layer performs the accesses; everything that decides
//! which access comes next, and how an operation ends, is verified here.
//!
//! [`dfsdm`] configures the digital filter for sigma-delta modulators on an
//! image of its register block.

pub mod dfsdm;
pub mod flash;
