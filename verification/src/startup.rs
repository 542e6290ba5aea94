//! Bringing the interrupt core up: the vector table built and installed,
//! the controllers set up and masked down to the kernel's two lines, and
//! only then the processor told to take interrupts.

use vstd::prelude::*;
use crate::handlers::{after_ticks, lemma_timer_stays_armed};
use crate::idt::{built, Entry, VectorTable};
use crate::pic::{
    bit_is_set, lemma_open_lines, mask_writes, setup_writes, without_bit, ChainedPics, PicPair,
    PortWrite, LINES,
};
use crate::vectors::{InterruptIndex, PIC_1_OFFSET, PIC_2_OFFSET};

verus! {

/// One step of the startup.
#[derive(Debug, Clone, Copy, PartialEq, Eq, Structural)]
pub enum StartupStep {
    /// Make the vector table the processor's own.
    InstallTable,
    /// Perform the port write.
    WritePort(PortWrite),
    /// Let the processor take interrupts.
    EnableInterrupts,
}

/// The interrupt core once `init_idt` has planned its startup.
#[derive(Debug)]
pub struct Startup {
    /// The vector table to install.
    pub table: VectorTable,
    /// The driver of the controllers, which the handlers go on with.
    pub pics: ChainedPics,
    /// The steps to perform, in this order.
    pub steps: Vec<StartupStep>,
}

/// The masks of the running kernel: on the primary controller the lines of
/// the timer and of the keyboard open and every other closed, on the
/// secondary every line closed.
pub open spec fn startup_masks() -> (u8, u8) {
    (
        without_bit(
            without_bit(0xFF, InterruptIndex::Timer.line()),
            InterruptIndex::Keyboard.line(),
        ),
        0xFF,
    )
}

/// The controllers of the running kernel.
pub open spec fn started() -> PicPair {
    PicPair::fresh(PIC_1_OFFSET, PIC_2_OFFSET).masked(startup_masks().0, startup_masks().1)
}

/// The steps of the startup: the table installed, the controllers set up,
/// their masks set, the interrupts enabled.
pub open spec fn startup_steps() -> Seq<StartupStep> {
    seq![StartupStep::InstallTable] + setup_writes(PIC_1_OFFSET, PIC_2_OFFSET).map_values(
        |write: PortWrite| StartupStep::WritePort(write),
    ) + mask_writes(startup_masks().0, startup_masks().1).map_values(
        |write: PortWrite| StartupStep::WritePort(write),
    ) + seq![StartupStep::EnableInterrupts]
}

/// `mask` with the line of `device` opened.
fn unmask(mask: u8, device: InterruptIndex) -> (opened: u8)
    ensures
        opened == without_bit(mask, device.line()),
{
    mask & !(1u8 << device.line())
}

/// Appends the steps that perform `writes`.
fn push_writes(steps: &mut Vec<StartupStep>, writes: &Vec<PortWrite>)
    ensures
        final(steps)@ == old(steps)@ + writes@.map_values(
            |write: PortWrite| StartupStep::WritePort(write),
        ),
{
    let mut done: usize = 0;
    while done < writes.len()
        invariant
            done <= writes@.len(),
            steps@ == old(steps)@ + writes@.take(done as int).map_values(
                |write: PortWrite| StartupStep::WritePort(write),
            ),
        decreases writes@.len() - done,
    {
        steps.push(StartupStep::WritePort(writes[done]));
        assert(steps@ =~= old(steps)@ + writes@.take(done as int + 1).map_values(
            |write: PortWrite| StartupStep::WritePort(write),
        ));
        done += 1;
    }
    assert(writes@.take(writes@.len() as int) =~= writes@);
}

/// Plans the startup of the interrupt core.
pub fn init_idt() -> (startup: Startup)
    ensures
        startup.table@ == built(),
        startup.pics@ == started(),
        startup.steps@ == startup_steps(),
{
    let table = VectorTable::build();
    let mut steps: Vec<StartupStep> = Vec::new();
    steps.push(StartupStep::InstallTable);
    let (mut pics, setup) = ChainedPics::initialize(PIC_1_OFFSET, PIC_2_OFFSET);
    push_writes(&mut steps, &setup);
    let primary = unmask(unmask(0xFF, InterruptIndex::Timer), InterruptIndex::Keyboard);
    let masks = pics.set_mask(primary, 0xFF);
    push_writes(&mut steps, &masks);
    steps.push(StartupStep::EnableInterrupts);
    assert(steps@ =~= startup_steps());
    Startup { table, pics, steps }
}

/// The startup leaves open exactly the lines of the kernel's devices: two of
/// the sixteen, both on the primary controller.
pub proof fn lemma_startup_masks(line: u8)
    requires
        line < LINES,
    ensures
        bit_is_set(started().primary.mask, line) <==> line != InterruptIndex::Timer.line()
            && line != InterruptIndex::Keyboard.line(),
        bit_is_set(started().secondary.mask, line),
        started().open_lines() == 2,
{
    let primary = started().primary.mask;
    assert(primary == 0xFC) by (bit_vector)
        requires
            primary == (0xFFu8 & !(1u8 << 0u8)) & !(1u8 << 1u8),
    ;
    assert(line < 8 ==> ((0xFCu8 & (1u8 << line) != 0) <==> (line != 0 && line != 1)))
        by (bit_vector);
    assert(line < 8 ==> 0xFFu8 & (1u8 << line) != 0) by (bit_vector);
    lemma_open_lines(0xFC);
    lemma_open_lines(0xFF);
    assert(0xFCu8 & 0x01 == 0 && 0xFCu8 & 0x02 == 0 && 0xFCu8 & 0x04 != 0 && 0xFCu8 & 0x08 != 0
        && 0xFCu8 & 0x10 != 0 && 0xFCu8 & 0x20 != 0 && 0xFCu8 & 0x40 != 0 && 0xFCu8 & 0x80 != 0)
        by (bit_vector);
    assert(0xFFu8 & 0x01 != 0 && 0xFFu8 & 0x02 != 0 && 0xFFu8 & 0x04 != 0 && 0xFFu8 & 0x08 != 0
        && 0xFFu8 & 0x10 != 0 && 0xFFu8 & 0x20 != 0 && 0xFFu8 & 0x40 != 0 && 0xFFu8 & 0x80 != 0)
        by (bit_vector);
}

/// The vector table and the controllers agree on each device: the vector
/// on which the controllers deliver the device's line is the one whose
/// entry holds the device's handler, and after the startup that line is
/// armed.
pub proof fn lemma_devices_agree(device: InterruptIndex)
    ensures
        started().valid(),
        started().primary.handles(device.vector()),
        started().vector_of(device.line()) == device.vector(),
        started().armed(device.line()),
        built()[device.vector() as int] == Entry::Device(device),
{
    lemma_startup_masks(device.line());
    assert(0u8 & (1u8 << 0u8) == 0 && 0u8 & (1u8 << 1u8) == 0) by (bit_vector);
}

/// The order of the startup: the table is installed first and once, the
/// interrupts are enabled last and once, and every step between the two is
/// a port write, so that the processor takes no interrupt before the table
/// is its own and the controllers are set up and masked.
pub proof fn lemma_startup_order(index: int)
    requires
        0 <= index < startup_steps().len(),
    ensures
        startup_steps().len() == 22,
        startup_steps()[index] == StartupStep::InstallTable <==> index == 0,
        startup_steps()[index] == StartupStep::EnableInterrupts <==> index == 21,
        0 < index < 21 ==> startup_steps()[index] is WritePort,
{
}

/// On the kernel as it is started, however many timer interrupts follow
/// one another: the masks stay those of the startup, and after every run of
/// the timer's handler the timer's line is armed for the next tick.
pub proof fn lemma_ticks_after_startup(ticks: nat)
    ensures
        after_ticks(started(), ticks).primary.mask == startup_masks().0,
        after_ticks(started(), ticks).secondary.mask == startup_masks().1,
        after_ticks(started(), ticks).armed(InterruptIndex::Timer.line()),
{
    lemma_devices_agree(InterruptIndex::Timer);
    lemma_timer_stays_armed(started(), ticks);
}

} // verus!
