use vstd::prelude::*;

verus! {

/// What can go wrong when building or checking a JTAG command stream.
#[derive(Debug, Clone, Copy, PartialEq, Eq, Structural)]
pub enum JtagError {
    /// A payload or bit count lies outside what the command format can carry.
    InvalidLength,
    /// The bytes that came back do not match the commands that were issued.
    ProtocolDesync,
    /// Captured bits were asked for, but no flush captured any.
    NothingCaptured,
}

} // verus!
