use rustos::idt::{Entry, Exception};
use rustos::init_idt;
use rustos::pic::PortWrite;
use rustos::startup::StartupStep;
use rustos::vectors::InterruptIndex;

fn port(port: u16, value: u8) -> StartupStep {
    StartupStep::WritePort(PortWrite { port, value })
}

#[test]
fn startup_installs_sets_up_masks_and_enables_in_this_order() {
    let startup = init_idt();
    let expected = vec![
        StartupStep::InstallTable,
        port(0x20, 0x11),
        port(0x80, 0),
        port(0xA0, 0x11),
        port(0x80, 0),
        port(0x21, 32),
        port(0x80, 0),
        port(0xA1, 40),
        port(0x80, 0),
        port(0x21, 4),
        port(0x80, 0),
        port(0xA1, 2),
        port(0x80, 0),
        port(0x21, 0x01),
        port(0x80, 0),
        port(0xA1, 0x01),
        port(0x80, 0),
        port(0x21, 0xFF),
        port(0xA1, 0xFF),
        port(0x21, 0xFC),
        port(0xA1, 0xFF),
        StartupStep::EnableInterrupts,
    ];
    assert_eq!(startup.steps, expected);
}

#[test]
fn startup_enables_interrupts_last_and_installs_the_table_first() {
    let steps = init_idt().steps;
    let installs: Vec<usize> =
        (0..steps.len()).filter(|&at| steps[at] == StartupStep::InstallTable).collect();
    let enables: Vec<usize> =
        (0..steps.len()).filter(|&at| steps[at] == StartupStep::EnableInterrupts).collect();
    assert_eq!(installs, vec![0]);
    assert_eq!(enables, vec![steps.len() - 1]);
}

#[test]
fn startup_leaves_exactly_two_lines_open() {
    let pair = init_idt().pics.pair();
    assert_eq!(pair.primary.mask, 0xFC);
    assert_eq!(pair.secondary.mask, 0xFF);
    assert_eq!(pair.primary.mask.count_zeros() + pair.secondary.mask.count_zeros(), 2);
    assert_eq!(pair.primary.offset, 32);
    assert_eq!(pair.secondary.offset, 40);
    assert_eq!(pair.primary.in_service, 0);
    assert_eq!(pair.secondary.in_service, 0);
}

#[test]
fn startup_arms_the_lines_of_the_devices_only() {
    let pics = init_idt().pics;
    assert_eq!(pics.request(InterruptIndex::Timer.line()), Some(32));
    assert_eq!(pics.request(InterruptIndex::Keyboard.line()), Some(33));
    for line in 2..=255u8 {
        assert_eq!(pics.request(line), None, "line {}", line);
    }
}

#[test]
fn table_and_controllers_agree_on_the_devices() {
    let startup = init_idt();
    for device in [InterruptIndex::Timer, InterruptIndex::Keyboard] {
        let vector = startup.pics.request(device.line());
        assert_eq!(vector, Some(device.as_u8()));
        assert_eq!(startup.table.entry(device.as_u8()), Entry::Device(device));
        assert!(startup.pics.pair().primary.handles_interrupt(device.as_u8()));
    }
}

#[test]
fn startup_table_is_the_built_table() {
    let table = init_idt().table;
    assert_eq!(table.entry(3), Entry::Exception(Exception::Breakpoint));
    assert_eq!(table.entry(8), Entry::Exception(Exception::DoubleFault));
    assert_eq!(table.entry(0), Entry::Absent);
    assert_eq!(table.entry(255), Entry::Absent);
    assert_eq!(table.dispatch(14), Entry::Exception(Exception::DoubleFault));
}
