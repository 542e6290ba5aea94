//! The vector table: which handler the processor runs for each of its 256
//! interrupt and exception numbers.
//!
//! The table here is the plan of the processor's table. An entry names its
//! handler in place of holding an address, so that the table can be checked
//! entry by entry before it is made the processor's own.

use vstd::prelude::*;
use crate::vectors::InterruptIndex;

verus! {

/// Number of entries of the table.
pub const VECTORS: usize = 256;

/// The exceptions that the kernel handles.
#[derive(Debug, Clone, Copy, PartialEq, Eq, Structural)]
pub enum Exception {
    /// A breakpoint instruction was executed.
    Breakpoint,
    /// The processor failed to deliver an exception or an interrupt.
    DoubleFault,
}

impl Exception {
    /// The number that the processor gives the exception.
    pub open spec fn vector(self) -> u8 {
        match self {
            Exception::Breakpoint => 3,
            Exception::DoubleFault => 8,
        }
    }

    /// Whether the interrupted code can go on once the handler is done.
    pub open spec fn resumable(self) -> bool {
        self == Exception::Breakpoint
    }

    /// The first line of the exception's report.
    pub open spec fn spec_headline(self) -> &'static str {
        match self {
            Exception::Breakpoint => "EXCEPTION: BREAKPOINT",
            Exception::DoubleFault => "EXCEPTION: DOUBLE FAULT",
        }
    }

    /// The first line of the exception's report.
    #[verifier::when_used_as_spec(spec_headline)]
    pub fn headline(self) -> (text: &'static str)
        ensures
            text == self.spec_headline(),
    {
        match self {
            Exception::Breakpoint => "EXCEPTION: BREAKPOINT",
            Exception::DoubleFault => "EXCEPTION: DOUBLE FAULT",
        }
    }

    /// The exception's number as an index into the vector table.
    pub fn as_usize(self) -> (vector: usize)
        ensures
            vector == self.vector(),
    {
        match self {
            Exception::Breakpoint => 3,
            Exception::DoubleFault => 8,
        }
    }

    /// Whether the interrupted code can go on once the handler is done.
    pub fn is_resumable(self) -> (resumable: bool)
        ensures
            resumable == self.resumable(),
    {
        match self {
            Exception::Breakpoint => true,
            Exception::DoubleFault => false,
        }
    }
}

/// One entry of the vector table.
#[derive(Debug, Clone, Copy, PartialEq, Eq, Structural)]
pub enum Entry {
    /// No handler. The processor cannot deliver this vector, which ends in a
    /// double fault.
    Absent,
    /// The handler of an exception. It owes the controllers nothing.
    Exception(Exception),
    /// The handler of a device's line. It must end the service of its
    /// interrupt at the controllers.
    Device(InterruptIndex),
}

impl Entry {
    /// Whether the entry has a handler.
    pub open spec fn present(self) -> bool {
        self != Entry::Absent
    }

    /// Whether the entry's handler must end the service of its interrupt at
    /// the controllers.
    pub open spec fn acknowledges(self) -> bool {
        self is Device
    }

    /// Whether the entry's handler is the one that belongs at `vector`.
    pub open spec fn belongs_at(self, vector: int) -> bool {
        match self {
            Entry::Absent => false,
            Entry::Exception(exception) => exception.vector() == vector,
            Entry::Device(device) => device.vector() == vector,
        }
    }

    /// Whether the entry has a handler.
    pub fn is_present(self) -> (present: bool)
        ensures
            present == self.present(),
    {
        match self {
            Entry::Absent => false,
            _ => true,
        }
    }

    /// Whether the entry's handler must end the service of its interrupt at
    /// the controllers.
    pub fn must_acknowledge(self) -> (owed: bool)
        ensures
            owed == self.acknowledges(),
    {
        match self {
            Entry::Device(_) => true,
            _ => false,
        }
    }
}

/// The entry that the kernel gives `vector`: the handlers of the breakpoint
/// and of the double fault, those of the timer's and the keyboard's line,
/// and nothing anywhere else.
pub open spec fn assigned(vector: int) -> Entry {
    if vector == Exception::Breakpoint.vector() {
        Entry::Exception(Exception::Breakpoint)
    } else if vector == Exception::DoubleFault.vector() {
        Entry::Exception(Exception::DoubleFault)
    } else if vector == InterruptIndex::Timer.vector() {
        Entry::Device(InterruptIndex::Timer)
    } else if vector == InterruptIndex::Keyboard.vector() {
        Entry::Device(InterruptIndex::Keyboard)
    } else {
        Entry::Absent
    }
}

/// The entry that the processor ends up running when `vector` is triggered
/// on a table with these entries: the vector's own where it is present,
/// else that of the double fault. `Absent` where neither is present: the
/// processor then resets.
pub open spec fn dispatched(entries: Seq<Entry>, vector: int) -> Entry {
    if entries[vector].present() {
        entries[vector]
    } else {
        entries[Exception::DoubleFault.vector() as int]
    }
}

/// The entries of the kernel's table, in the order of their vectors.
pub open spec fn built() -> Seq<Entry> {
    Seq::new(VECTORS as nat, |vector: int| assigned(vector))
}

/// The vector table.
#[derive(Debug)]
pub struct VectorTable {
    entries: Vec<Entry>,
}

impl View for VectorTable {
    type V = Seq<Entry>;

    closed spec fn view(&self) -> Seq<Entry> {
        self.entries@
    }
}

impl VectorTable {
    #[verifier::type_invariant]
    spec fn well_formed(self) -> bool {
        self.entries@.len() == VECTORS
    }

    /// Builds the kernel's table: every entry absent, but for the four that
    /// the kernel handles.
    pub fn build() -> (table: VectorTable)
        ensures
            table@ == built(),
    {
        let mut entries: Vec<Entry> = Vec::new();
        while entries.len() < VECTORS
            invariant
                entries@.len() <= VECTORS,
                forall|vector: int|
                    0 <= vector < entries@.len() ==> entries@[vector] == Entry::Absent,
            decreases VECTORS - entries@.len(),
        {
            entries.push(Entry::Absent);
        }
        entries.set(Exception::Breakpoint.as_usize(), Entry::Exception(Exception::Breakpoint));
        entries.set(Exception::DoubleFault.as_usize(), Entry::Exception(Exception::DoubleFault));
        entries.set(InterruptIndex::Timer.as_usize(), Entry::Device(InterruptIndex::Timer));
        entries.set(InterruptIndex::Keyboard.as_usize(), Entry::Device(InterruptIndex::Keyboard));
        assert(entries@ =~= built());
        VectorTable { entries }
    }

    /// The entry of `vector`.
    pub fn entry(&self, vector: u8) -> (entry: Entry)
        ensures
            self@.len() == VECTORS,
            entry == self@[vector as int],
    {
        proof {
            use_type_invariant(self);
        }
        self.entries[vector as usize]
    }

    /// The entry that the processor ends up running when `vector` is
    /// triggered.
    pub fn dispatch(&self, vector: u8) -> (entry: Entry)
        ensures
            entry == dispatched(self@, vector as int),
    {
        let own = self.entry(vector);
        if own.is_present() {
            own
        } else {
            self.entries[Exception::DoubleFault.as_usize()]
        }
    }
}

/// Of the kernel's table, entry by entry: an entry is absent, or it holds
/// the handler that belongs at its vector, which is then one of the four
/// that the kernel handles. No entry holds anything else.
pub proof fn lemma_built_entries(vector: int)
    requires
        0 <= vector < VECTORS,
    ensures
        built()[vector] == Entry::Absent || built()[vector].belongs_at(vector),
        built()[vector].present() <==> {
            ||| vector == Exception::Breakpoint.vector()
            ||| vector == Exception::DoubleFault.vector()
            ||| vector == InterruptIndex::Timer.vector()
            ||| vector == InterruptIndex::Keyboard.vector()
        },
{
}

/// On the kernel's table every trigger finds a handler, and the trigger of
/// a vector without an entry of its own runs the handler of the double
/// fault.
pub proof fn lemma_built_dispatch(vector: int)
    requires
        0 <= vector < VECTORS,
    ensures
        dispatched(built(), vector).present(),
        !built()[vector].present() ==> dispatched(built(), vector) == Entry::Exception(
            Exception::DoubleFault,
        ),
{
}

} // verus!
