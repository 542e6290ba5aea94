use rustos::idt::{Entry, Exception, VectorTable, VECTORS};
use rustos::vectors::{InterruptIndex, PIC_1_OFFSET, PIC_2_OFFSET};

#[test]
fn built_table_holds_the_four_handlers_and_nothing_else() {
    let table = VectorTable::build();
    let mut present = 0;
    for vector in 0..=255u8 {
        let expected = match vector {
            3 => Entry::Exception(Exception::Breakpoint),
            8 => Entry::Exception(Exception::DoubleFault),
            32 => Entry::Device(InterruptIndex::Timer),
            33 => Entry::Device(InterruptIndex::Keyboard),
            _ => Entry::Absent,
        };
        assert_eq!(table.entry(vector), expected, "vector {}", vector);
        if table.entry(vector).is_present() {
            present += 1;
        }
    }
    assert_eq!(present, 4);
    assert_eq!(VECTORS, 256);
}

#[test]
fn every_present_entry_belongs_at_its_vector() {
    let table = VectorTable::build();
    for vector in 0..=255u8 {
        match table.entry(vector) {
            Entry::Absent => {}
            Entry::Exception(exception) => assert_eq!(exception.as_usize(), vector as usize),
            Entry::Device(device) => assert_eq!(device.as_u8(), vector),
        }
    }
}

#[test]
fn trigger_of_a_present_vector_runs_its_own_handler() {
    let table = VectorTable::build();
    assert_eq!(table.dispatch(3), Entry::Exception(Exception::Breakpoint));
    assert_eq!(table.dispatch(8), Entry::Exception(Exception::DoubleFault));
    assert_eq!(table.dispatch(32), Entry::Device(InterruptIndex::Timer));
    assert_eq!(table.dispatch(33), Entry::Device(InterruptIndex::Keyboard));
}

#[test]
fn trigger_of_an_absent_vector_ends_in_the_double_fault() {
    let table = VectorTable::build();
    for vector in 0..=255u8 {
        if !table.entry(vector).is_present() {
            assert_eq!(
                table.dispatch(vector),
                Entry::Exception(Exception::DoubleFault),
                "vector {}",
                vector
            );
        }
    }
}

#[test]
fn only_device_entries_owe_an_acknowledgment() {
    assert!(Entry::Device(InterruptIndex::Timer).must_acknowledge());
    assert!(Entry::Device(InterruptIndex::Keyboard).must_acknowledge());
    assert!(!Entry::Exception(Exception::Breakpoint).must_acknowledge());
    assert!(!Entry::Exception(Exception::DoubleFault).must_acknowledge());
    assert!(!Entry::Absent.must_acknowledge());
    assert!(!Entry::Absent.is_present());
}

#[test]
fn breakpoint_is_resumable_and_double_fault_is_not() {
    assert!(Exception::Breakpoint.is_resumable());
    assert!(!Exception::DoubleFault.is_resumable());
}

#[test]
fn exceptions_have_their_processor_numbers() {
    assert_eq!(Exception::Breakpoint.as_usize(), 3);
    assert_eq!(Exception::DoubleFault.as_usize(), 8);
}

#[test]
fn exceptions_have_their_headlines() {
    assert_eq!(Exception::Breakpoint.headline(), "EXCEPTION: BREAKPOINT");
    assert_eq!(Exception::DoubleFault.headline(), "EXCEPTION: DOUBLE FAULT");
}

#[test]
fn devices_have_their_vectors() {
    assert_eq!(PIC_1_OFFSET, 32);
    assert_eq!(PIC_2_OFFSET, 40);
    assert_eq!(InterruptIndex::Timer.as_u8(), 32);
    assert_eq!(InterruptIndex::Keyboard.as_u8(), 33);
    assert_eq!(InterruptIndex::Timer.as_usize(), 32);
    assert_eq!(InterruptIndex::Keyboard.as_usize(), 33);
    assert_eq!(InterruptIndex::Timer.line(), 0);
    assert_eq!(InterruptIndex::Keyboard.line(), 1);
}
