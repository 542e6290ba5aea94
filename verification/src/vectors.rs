//! Which vector each device's line arrives on.

use vstd::prelude::*;

verus! {

/// Base vector of the primary controller: the first vector above the 32 that
/// the processor keeps for its own exceptions.
pub const PIC_1_OFFSET: u8 = 32;

/// Base vector of the secondary controller, directly behind the primary's
/// eight lines.
pub const PIC_2_OFFSET: u8 = PIC_1_OFFSET + 8;

/// The devices whose lines the kernel serves.
#[derive(Debug, Clone, Copy, PartialEq, Eq, Structural)]
pub enum InterruptIndex {
    Timer,
    Keyboard,
}

impl InterruptIndex {
    /// The line of the primary controller that the device is wired to.
    pub open spec fn spec_line(self) -> u8 {
        match self {
            InterruptIndex::Timer => 0,
            InterruptIndex::Keyboard => 1,
        }
    }

    /// The vector of the device: its line, counted from the primary
    /// controller's base.
    pub open spec fn vector(self) -> u8 {
        (PIC_1_OFFSET + self.spec_line()) as u8
    }

    /// The line of the primary controller that the device is wired to.
    #[verifier::when_used_as_spec(spec_line)]
    pub fn line(self) -> (line: u8)
        ensures
            line == self.spec_line(),
    {
        match self {
            InterruptIndex::Timer => 0,
            InterruptIndex::Keyboard => 1,
        }
    }

    /// The device's vector as the byte that the controller driver takes.
    #[verifier::when_used_as_spec(vector)]
    pub fn as_u8(self) -> (vector: u8)
        ensures
            vector == self.vector(),
    {
        PIC_1_OFFSET + self.line()
    }

    /// The device's vector as an index into the vector table.
    pub fn as_usize(self) -> (index: usize)
        ensures
            index == self.vector(),
    {
        self.as_u8() as usize
    }
}

} // verus!
