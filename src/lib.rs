//! JTAG over the MPSSE shift engine of FTDI bridge chips: the command
//! encoder, the TAP state sequencer and the command compacter.

pub mod compacter;
pub mod error;
pub mod jtag;
pub mod mpsse;
