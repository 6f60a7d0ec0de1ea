use cupi::mcp23x17::{
    Access, BusSettings, Chip, Frame, MCP23X17Register, Port, Transaction, CHIP_REGISTERS,
    CMD_READ, CMD_WRITE, IOCON_BANK_MODE, IOCON_DISSLW, IOCON_HAEN, IOCON_INTPOL, IOCON_MIRROR,
    IOCON_ODR, IOCON_SEQOP, IOCON_UNUSED, MCP23S17,
};
use cupi::sys::Edge;
use cupi::{Error, Logic, RegisterDesc};

fn frames(transaction: &mut Transaction, answers: &[u8]) -> Vec<Frame> {
    let mut sent = Vec::new();
    let mut answers = answers.iter();
    while let Some(frame) = transaction.request() {
        sent.push(frame);
        transaction.reply(*answers.next().unwrap_or(&0));
    }
    sent
}

fn ports(address: usize) -> (MCP23S17, Port, Port) {
    let (record, _) = MCP23S17::new(address);
    let (a, b) = (record.porta(), record.portb());
    (record, a, b)
}

fn preset(chip: &mut Chip, register: MCP23X17Register, value: u8) {
    let mut transaction =
        Transaction::new(0, vec![Access::Write { register, value }], false).unwrap();
    chip.serve(&mut transaction);
}

#[test]
fn expander_register_offsets() {
    assert_eq!(MCP23X17Register::IODIR(0).offset(), 0);
    assert_eq!(MCP23X17Register::IODIR(1).offset(), 1);
    assert_eq!(MCP23X17Register::IPOL(0).offset(), 2);
    assert_eq!(MCP23X17Register::GPINTEN(1).offset(), 5);
    assert_eq!(MCP23X17Register::DEFVAL(0).offset(), 6);
    assert_eq!(MCP23X17Register::INTCON(1).offset(), 9);
    assert_eq!(MCP23X17Register::IOCON(0).offset(), 10);
    assert_eq!(MCP23X17Register::GPPU(1).offset(), 13);
    assert_eq!(MCP23X17Register::INTF(0).offset(), 14);
    assert_eq!(MCP23X17Register::INTCAP(1).offset(), 17);
    assert_eq!(MCP23X17Register::GPIO(0).offset(), 18);
    assert_eq!(MCP23X17Register::GPIO(1).offset(), 19);
    assert_eq!(MCP23X17Register::OLAT(1).offset(), 21);
    assert_eq!(CHIP_REGISTERS, 22);
    assert!(MCP23X17Register::OLAT(1).is_on_chip());
    assert!(!MCP23X17Register::OLAT(2).is_on_chip());
}

#[test]
fn configuration_bits() {
    assert_eq!(IOCON_UNUSED, 0x01);
    assert_eq!(IOCON_INTPOL, 0x02);
    assert_eq!(IOCON_ODR, 0x04);
    assert_eq!(IOCON_HAEN, 0x08);
    assert_eq!(IOCON_DISSLW, 0x10);
    assert_eq!(IOCON_SEQOP, 0x20);
    assert_eq!(IOCON_MIRROR, 0x40);
    assert_eq!(IOCON_BANK_MODE, 0x80);
    assert_eq!(CMD_WRITE, 0x40);
    assert_eq!(CMD_READ, 0x41);
}

#[test]
fn write_frame_layout() {
    assert_eq!(
        MCP23X17Register::IODIR(0).write(0, 0xAB),
        Frame { opcode: 0x40, register: 0, data: 0xAB }
    );
    assert_eq!(
        MCP23X17Register::OLAT(1).write(7, 0x01),
        Frame { opcode: 0x4E, register: 21, data: 0x01 }
    );
    assert_eq!(
        MCP23X17Register::GPPU(0).write(8, 0xFF),
        Frame { opcode: 0x50, register: 12, data: 0xFF }
    );
}

#[test]
fn frame_bytes() {
    let frame = MCP23X17Register::OLAT(1).write(7, 0x01);
    assert_eq!(frame.bytes(), [0x4E, 21, 0x01]);
    assert_eq!(MCP23X17Register::GPIO(0).read(0).bytes(), [0x41, 18, 0]);
    assert_eq!(Frame::answer(&[0xAA, 0xBB, 0xCC]), 0xCC);
}

#[test]
fn read_frame_layout() {
    assert_eq!(
        MCP23X17Register::GPIO(1).read(3),
        Frame { opcode: 0x47, register: 19, data: 0 }
    );
    assert_eq!(
        MCP23X17Register::GPIO(0).read(0),
        Frame { opcode: 0x41, register: 18, data: 0 }
    );
}

#[test]
fn bus_settings() {
    assert_eq!(
        MCP23S17::settings(),
        BusSettings { bits_per_word: 8, max_speed_hz: 4_000_000, mode: 0 }
    );
}

#[test]
fn opening_configures_both_ports() {
    let (chip, mut transaction) = MCP23S17::new(2);
    assert_eq!(chip.address(), 2);
    assert!(!transaction.is_best_effort());
    assert_eq!(
        frames(&mut transaction, &[]),
        vec![
            Frame { opcode: 0x44, register: 10, data: 0x28 },
            Frame { opcode: 0x44, register: 11, data: 0x28 },
        ]
    );
    assert_eq!(transaction.result(), None);
}

#[test]
fn ports_of_a_chip() {
    let (record, a, b) = ports(5);
    assert_eq!(record.address(), 5);
    assert_eq!(a.port(), 0);
    assert_eq!(b.port(), 1);
    assert_eq!(record.claimed(0), 0);
    assert_eq!(record.claimed(1), 0);
    assert_eq!(record.claimed(2), 0);
    assert_eq!(record.porta(), a);
}

#[test]
fn a_second_view_of_a_port_sees_the_same_record() {
    let (mut record, first, _) = ports(0);
    let (output, _) = first.output(&mut record, 3).unwrap();
    let second = record.porta();
    assert!(matches!(second.output(&mut record, 3), Err(Error::AlreadyClaimed)));
    assert!(matches!(second.input(&mut record, 3), Err(Error::AlreadyClaimed)));
    assert!(matches!(second.group_input(&mut record, 0b0000_1100), Err(Error::AlreadyClaimed)));
    assert!(matches!(second.group_output(&mut record, 0xFF), Err(Error::AlreadyClaimed)));
    assert_eq!(record.claimed(0), 0b0000_1000);
    let (group, _) = second.group_input(&mut record, 0b1111_0000).unwrap();
    assert!(matches!(first.input(&mut record, 7), Err(Error::AlreadyClaimed)));
    assert!(record.portb().input(&mut record, 3).is_ok());
    let _ = output.release(&mut record);
    assert_eq!(record.claimed(0), 0b1111_0000);
    assert!(first.input(&mut record, 3).is_ok());
    group.release(&mut record);
    assert_eq!(record.claimed(0), 0b0000_1000);
    assert_eq!(record.claimed(1), 0b0000_1000);
}

#[test]
fn release_frees_the_line_of_its_own_port_only() {
    let (mut record, a, b) = ports(0);
    let (on_a, _) = a.output(&mut record, 2).unwrap();
    let (on_b, _) = b.input(&mut record, 2).unwrap();
    let _ = on_a.release(&mut record);
    assert_eq!(record.claimed(0), 0);
    assert_eq!(record.claimed(1), 0b0000_0100);
    assert!(matches!(b.output(&mut record, 2), Err(Error::AlreadyClaimed)));
    on_b.release(&mut record);
    assert_eq!(record.claimed(1), 0);
}

#[test]
fn release_leaves_the_record_of_another_chip_alone() {
    let (mut here, a, _) = ports(0);
    let (mut there, other_a, _) = ports(1);
    let (mine, _) = a.output(&mut here, 5).unwrap();
    let (theirs, _) = other_a.output(&mut there, 5).unwrap();
    let mut revert = mine.release(&mut there);
    assert_eq!(there.claimed(0), 0b0010_0000);
    assert_eq!(here.claimed(0), 0b0010_0000);
    assert_eq!(revert.address(), 0);
    assert_eq!(
        frames(&mut revert, &[0]),
        vec![
            Frame { opcode: 0x41, register: 0, data: 0 },
            Frame { opcode: 0x40, register: 0, data: 0b0010_0000 },
        ]
    );
    let _ = theirs.release(&mut there);
    assert_eq!(there.claimed(0), 0);
}

#[test]
fn input_claim_reads_then_writes_the_direction() {
    let (mut record, _, b) = ports(0);
    let (input, mut transaction) = b.input(&mut record, 3).unwrap();
    assert_eq!((input.address(), input.port(), input.pin()), (0, 1, 3));
    assert_eq!(record.claimed(1), 0b0000_1000);
    assert_eq!(
        frames(&mut transaction, &[0b1000_0001]),
        vec![
            Frame { opcode: 0x41, register: 1, data: 0 },
            Frame { opcode: 0x40, register: 1, data: 0b1000_1001 },
        ]
    );
}

#[test]
fn output_claim_clears_the_direction_bit() {
    let (mut record, a, _) = ports(0);
    let (output, mut transaction) = a.output(&mut record, 7).unwrap();
    assert_eq!((output.address(), output.port(), output.pin()), (0, 0, 7));
    assert_eq!(
        frames(&mut transaction, &[0xFF]),
        vec![
            Frame { opcode: 0x41, register: 0, data: 0 },
            Frame { opcode: 0x40, register: 0, data: 0x7F },
        ]
    );
}

#[test]
fn transaction_waits_for_each_answer() {
    let (mut record, _, b) = ports(1);
    let (_, mut transaction) = b.input(&mut record, 0).unwrap();
    assert!(!transaction.is_finished());
    let first = transaction.request().unwrap();
    assert_eq!(transaction.request(), Some(first));
    assert_eq!(first, Frame { opcode: 0x43, register: 1, data: 0 });
    transaction.reply(0xF0);
    assert!(!transaction.is_finished());
    assert_eq!(transaction.request(), Some(Frame { opcode: 0x42, register: 1, data: 0xF1 }));
    transaction.reply(0);
    assert!(transaction.is_finished());
    assert_eq!(transaction.request(), None);
    transaction.reply(0x55);
    assert!(transaction.is_finished());
    assert_eq!(transaction.result(), None);
    assert_eq!(transaction.address(), 1);
}

#[test]
fn held_lines_of_a_port_are_refused() {
    let (mut record, a, _) = ports(0);
    let (output, _) = a.output(&mut record, 2).unwrap();
    assert!(matches!(a.output(&mut record, 2), Err(Error::AlreadyClaimed)));
    assert!(matches!(a.input(&mut record, 2), Err(Error::AlreadyClaimed)));
    assert!(matches!(a.group_output(&mut record, 0b0000_0110), Err(Error::AlreadyClaimed)));
    assert!(matches!(a.group_input(&mut record, 0xFF), Err(Error::AlreadyClaimed)));
    assert_eq!(record.claimed(0), 0b0000_0100);
    let (group, _) = a.group_input(&mut record, 0b1111_0000).unwrap();
    assert_eq!(record.claimed(0), 0b1111_0100);
    assert!(matches!(a.input(&mut record, 4), Err(Error::AlreadyClaimed)));
    assert!(a.input(&mut record, 3).is_ok());
    group.release(&mut record);
    assert_eq!(record.claimed(0), 0b0000_1100);
    let mut release = output.release(&mut record);
    assert_eq!(record.claimed(0), 0b0000_1000);
    assert!(release.is_best_effort());
    assert_eq!(
        frames(&mut release, &[0b1111_0000]),
        vec![
            Frame { opcode: 0x41, register: 0, data: 0 },
            Frame { opcode: 0x40, register: 0, data: 0b1111_0100 },
        ]
    );
    assert!(a.output(&mut record, 2).is_ok());
}

#[test]
fn an_empty_group_is_always_free() {
    let (mut record, a, _) = ports(0);
    let (_, _) = a.group_output(&mut record, 0xFF).unwrap();
    assert!(a.group_input(&mut record, 0).is_ok());
    assert_eq!(record.claimed(0), 0xFF);
}

#[test]
fn pull_up_updates_the_pull_register() {
    let (mut record, _, b) = ports(0);
    let (input, _) = b.input(&mut record, 5).unwrap();
    assert_eq!(
        frames(&mut input.pull_up(), &[0b0000_0001]),
        vec![
            Frame { opcode: 0x41, register: 13, data: 0 },
            Frame { opcode: 0x40, register: 13, data: 0b0010_0001 },
        ]
    );
    assert_eq!(
        frames(&mut input.pull_off(), &[0b0010_0001]),
        vec![
            Frame { opcode: 0x41, register: 13, data: 0 },
            Frame { opcode: 0x40, register: 13, data: 0b0000_0001 },
        ]
    );
}

#[test]
fn pin_read_tests_its_bit() {
    let (mut record, _, b) = ports(0);
    let (input, _) = b.input(&mut record, 6).unwrap();
    let mut transaction = input.digital_read();
    assert_eq!(
        frames(&mut transaction, &[0b0100_0000]),
        vec![Frame { opcode: 0x41, register: 19, data: 0 }]
    );
    assert_eq!(transaction.result(), Some(0b0100_0000));
    assert_eq!(input.level(0b0100_0000), Logic::High);
    assert_eq!(input.level(0b1011_1111), Logic::Low);
    assert_eq!(input.level(0xFF), Logic::High);
    assert_eq!(input.level(0), Logic::Low);
}

#[test]
fn pin_write_reads_before_it_writes() {
    let (mut record, a, _) = ports(0);
    let (output, _) = a.output(&mut record, 1).unwrap();
    assert_eq!(
        frames(&mut output.digital_write(Logic::High), &[0b1000_0000]),
        vec![
            Frame { opcode: 0x41, register: 18, data: 0 },
            Frame { opcode: 0x40, register: 18, data: 0b1000_0010 },
        ]
    );
    assert_eq!(
        frames(&mut output.digital_write(0usize), &[0b1000_0010]),
        vec![
            Frame { opcode: 0x41, register: 18, data: 0 },
            Frame { opcode: 0x40, register: 18, data: 0b1000_0000 },
        ]
    );
}

#[test]
fn transactions_are_for_registers_of_the_chip() {
    let read = Access::Read { register: MCP23X17Register::GPIO(1) };
    let beyond = Access::Update { register: MCP23X17Register::GPIO(2), set: 1, clear: 0 };
    assert!(Transaction::new(8, vec![read], true).is_some());
    assert!(Transaction::new(9, vec![read], true).is_none());
    assert!(Transaction::new(0, vec![read, beyond], false).is_none());
    assert!(Transaction::new(0, vec![], false).unwrap().is_finished());
}

#[test]
fn chip_ignores_a_transaction_for_another_chip() {
    let mut chip = Chip::new(1);
    let write = Access::Write { register: MCP23X17Register::GPIO(0), value: 0x77 };
    let mut other = Transaction::new(0, vec![write], false).unwrap();
    chip.serve(&mut other);
    assert!(other.is_finished());
    assert_eq!(chip.register(MCP23X17Register::GPIO(0)), 0);
    let mut own = Transaction::new(1, vec![write], false).unwrap();
    chip.serve(&mut own);
    assert_eq!(chip.register(MCP23X17Register::GPIO(0)), 0x77);
    assert_eq!(chip.register(MCP23X17Register::GPIO(2)), 0);
}

#[test]
fn chip_after_reset() {
    let chip = Chip::new(0);
    assert_eq!(chip.register(MCP23X17Register::IODIR(0)), 0xFF);
    assert_eq!(chip.register(MCP23X17Register::IODIR(1)), 0xFF);
    for port in 0..2 {
        assert_eq!(chip.register(MCP23X17Register::IPOL(port)), 0);
        assert_eq!(chip.register(MCP23X17Register::GPINTEN(port)), 0);
        assert_eq!(chip.register(MCP23X17Register::DEFVAL(port)), 0);
        assert_eq!(chip.register(MCP23X17Register::INTCON(port)), 0);
        assert_eq!(chip.register(MCP23X17Register::IOCON(port)), 0);
        assert_eq!(chip.register(MCP23X17Register::GPPU(port)), 0);
        assert_eq!(chip.register(MCP23X17Register::GPIO(port)), 0);
        assert_eq!(chip.register(MCP23X17Register::OLAT(port)), 0);
    }
}

#[test]
fn chip_answers_its_own_address_only() {
    let mut chip = Chip::new(3);
    assert_eq!(chip.exchange(Frame { opcode: 0x46, register: 18, data: 0x5A }), 0);
    assert_eq!(chip.exchange(Frame { opcode: 0x47, register: 18, data: 0 }), 0x5A);
    assert_eq!(chip.exchange(Frame { opcode: 0x40, register: 18, data: 0xFF }), 0);
    assert_eq!(chip.exchange(Frame { opcode: 0x41, register: 18, data: 0 }), 0);
    assert_eq!(chip.exchange(Frame { opcode: 0x47, register: 18, data: 0 }), 0x5A);
    assert_eq!(chip.exchange(Frame { opcode: 0x46, register: 22, data: 0xFF }), 0);
    assert_eq!(chip.exchange(Frame { opcode: 0x47, register: 22, data: 0 }), 0);
    assert_eq!(chip.register(MCP23X17Register::GPIO(0)), 0x5A);
}

#[test]
fn opening_a_chip_sets_its_configuration() {
    let mut chip = Chip::new(0);
    let (_, mut transaction) = MCP23S17::new(0);
    chip.serve(&mut transaction);
    assert!(transaction.is_finished());
    assert_eq!(chip.register(MCP23X17Register::IOCON(0)), 0x28);
    assert_eq!(chip.register(MCP23X17Register::IOCON(1)), 0x28);
    assert_eq!(chip.register(MCP23X17Register::IODIR(0)), 0xFF);
}

#[test]
fn claims_set_the_direction_on_the_chip() {
    let mut chip = Chip::new(0);
    let (mut record, a, b) = ports(0);
    let (_, mut transaction) = a.output(&mut record, 0).unwrap();
    chip.serve(&mut transaction);
    assert_eq!(chip.register(MCP23X17Register::IODIR(0)), 0b1111_1110);
    let (group, mut transaction) = a.group_output(&mut record, 0b1111_0000).unwrap();
    chip.serve(&mut transaction);
    assert_eq!(chip.register(MCP23X17Register::IODIR(0)), 0b0000_1110);
    assert_eq!(chip.register(MCP23X17Register::IODIR(1)), 0xFF);
    preset(&mut chip, MCP23X17Register::IODIR(1), 0);
    let (_, mut transaction) = b.input(&mut record, 7).unwrap();
    chip.serve(&mut transaction);
    assert_eq!(chip.register(MCP23X17Register::IODIR(1)), 0b1000_0000);
    let (_, mut transaction) = b.group_input(&mut record, 0b0000_0011).unwrap();
    chip.serve(&mut transaction);
    assert_eq!(chip.register(MCP23X17Register::IODIR(1)), 0b1000_0011);
    chip.serve(&mut group.release(&mut record));
    assert_eq!(chip.register(MCP23X17Register::IODIR(0)), 0b1111_1110);
}

#[test]
fn group_write_touches_the_masked_bits_only() {
    let mut chip = Chip::new(0);
    let (mut record, a, _) = ports(0);
    preset(&mut chip, MCP23X17Register::GPIO(0), 0b1010_0101);
    let (group, mut claim) = a.group_output(&mut record, 0b0000_1111).unwrap();
    assert_eq!(group.mask(), 0b0000_1111);
    chip.serve(&mut claim);
    chip.serve(&mut group.digital_write(Logic::High));
    assert_eq!(chip.register(MCP23X17Register::GPIO(0)), 0b1010_1111);
    chip.serve(&mut group.digital_write(Logic::Low));
    assert_eq!(chip.register(MCP23X17Register::GPIO(0)), 0b1010_0000);
    for round in 0..50 {
        let level = if round % 3 == 0 { Logic::Low } else { Logic::High };
        chip.serve(&mut group.digital_write(level));
        let value = chip.register(MCP23X17Register::GPIO(0));
        assert_eq!(value & 0b1111_0000, 0b1010_0000);
        assert_eq!(value & 0b0000_1111, if level == Logic::High { 0b1111 } else { 0 });
    }
    assert_eq!(chip.register(MCP23X17Register::GPIO(1)), 0);
    assert_eq!(chip.register(MCP23X17Register::OLAT(0)), 0);
}

#[test]
fn pin_write_and_read_on_the_chip() {
    let mut chip = Chip::new(0);
    let (mut record, a, _) = ports(0);
    let (output, mut claim) = a.output(&mut record, 4).unwrap();
    chip.serve(&mut claim);
    chip.serve(&mut output.digital_write(Logic::High));
    assert_eq!(chip.register(MCP23X17Register::GPIO(0)), 0b0001_0000);
    chip.serve(&mut output.release(&mut record));
    assert_eq!(chip.register(MCP23X17Register::IODIR(0)), 0xFF);
    let (input, mut claim) = a.input(&mut record, 4).unwrap();
    chip.serve(&mut claim);
    let mut read = input.digital_read();
    chip.serve(&mut read);
    assert_eq!(input.level(read.result().unwrap()), Logic::High);
}

#[test]
fn group_read_masks_the_levels() {
    let mut chip = Chip::new(0);
    let (mut record, _, b) = ports(0);
    preset(&mut chip, MCP23X17Register::GPIO(1), 0b1100_1010);
    let (group, mut claim) = b.group_input(&mut record, 0b0000_1111).unwrap();
    chip.serve(&mut claim);
    let mut read = group.digital_read();
    chip.serve(&mut read);
    assert_eq!(read.result(), Some(0b1100_1010));
    assert_eq!(group.levels(read.result().unwrap()), 0b0000_1010);
    assert_eq!(chip.register(MCP23X17Register::GPIO(1)), 0b1100_1010);
}

#[test]
fn group_pull_ups() {
    let mut chip = Chip::new(0);
    let (mut record, _, b) = ports(0);
    preset(&mut chip, MCP23X17Register::GPPU(1), 0b1000_0001);
    let (group, _) = b.group_input(&mut record, 0b0011_1100).unwrap();
    chip.serve(&mut group.pull_up());
    assert_eq!(chip.register(MCP23X17Register::GPPU(1)), 0b1011_1101);
    chip.serve(&mut group.pull_off());
    assert_eq!(chip.register(MCP23X17Register::GPPU(1)), 0b1000_0001);
    assert_eq!(chip.register(MCP23X17Register::GPPU(0)), 0);
}

#[test]
fn falling_edge_interrupt() {
    let mut chip = Chip::new(0);
    let (mut record, _, b) = ports(0);
    preset(&mut chip, MCP23X17Register::DEFVAL(1), 0xFF);
    let (group, _) = b.group_input(&mut record, 0x01).unwrap();
    chip.serve(&mut group.interrupt(Edge::FallingEdge));
    assert_eq!(chip.register(MCP23X17Register::DEFVAL(1)) & 0x01, 0);
    assert_eq!(chip.register(MCP23X17Register::INTCON(1)) & 0x01, 0x01);
    assert_eq!(chip.register(MCP23X17Register::GPINTEN(1)) & 0x01, 0x01);
    assert_eq!(chip.register(MCP23X17Register::DEFVAL(1)), 0xFE);
    assert_eq!(chip.register(MCP23X17Register::INTCON(1)), 0x01);
    assert_eq!(chip.register(MCP23X17Register::GPINTEN(1)), 0x01);
    assert_eq!(chip.register(MCP23X17Register::DEFVAL(0)), 0);
}

#[test]
fn both_edges_interrupt() {
    let mut chip = Chip::new(0);
    let (mut record, _, b) = ports(0);
    preset(&mut chip, MCP23X17Register::DEFVAL(1), 0b0101_0101);
    preset(&mut chip, MCP23X17Register::INTCON(1), 0xFF);
    let (group, _) = b.group_input(&mut record, 0x01).unwrap();
    chip.serve(&mut group.interrupt(Edge::BothEdges));
    assert_eq!(chip.register(MCP23X17Register::INTCON(1)) & 0x01, 0);
    assert_eq!(chip.register(MCP23X17Register::GPINTEN(1)) & 0x01, 0x01);
    assert_eq!(chip.register(MCP23X17Register::INTCON(1)), 0xFE);
    assert_eq!(chip.register(MCP23X17Register::DEFVAL(1)), 0b0101_0101);
    assert_eq!(chip.register(MCP23X17Register::GPINTEN(1)), 0x01);
}

#[test]
fn rising_edge_interrupt() {
    let mut chip = Chip::new(0);
    let (mut record, a, _) = ports(0);
    let (group, _) = a.group_input(&mut record, 0b0011_0000).unwrap();
    chip.serve(&mut group.interrupt(Edge::RisingEdge));
    assert_eq!(chip.register(MCP23X17Register::DEFVAL(0)), 0b0011_0000);
    assert_eq!(chip.register(MCP23X17Register::INTCON(0)), 0b0011_0000);
    assert_eq!(chip.register(MCP23X17Register::GPINTEN(0)), 0b0011_0000);
}

#[test]
fn stopping_interrupts_clears_the_enable_bits_only() {
    let mut chip = Chip::new(0);
    let (mut record, a, _) = ports(0);
    preset(&mut chip, MCP23X17Register::GPINTEN(0), 0xFF);
    preset(&mut chip, MCP23X17Register::DEFVAL(0), 0x3C);
    preset(&mut chip, MCP23X17Register::INTCON(0), 0xC3);
    let (group, _) = a.group_input(&mut record, 0x0F).unwrap();
    chip.serve(&mut group.stop_interrupt());
    assert_eq!(chip.register(MCP23X17Register::GPINTEN(0)), 0xF0);
    assert_eq!(chip.register(MCP23X17Register::DEFVAL(0)), 0x3C);
    assert_eq!(chip.register(MCP23X17Register::INTCON(0)), 0xC3);
    let mut by_edge = group.interrupt(Edge::NoInterrupt);
    let mut by_name = group.stop_interrupt();
    assert_eq!(frames(&mut by_edge, &[1, 0, 2, 0, 3, 0]), frames(&mut by_name, &[1, 0, 2, 0, 3, 0]));
}

#[test]
fn interrupt_exchanges_in_order() {
    let (mut record, _, b) = ports(0);
    let (group, _) = b.group_input(&mut record, 0x81).unwrap();
    assert_eq!(
        frames(&mut group.interrupt(Edge::FallingEdge), &[0xFF, 0, 0x00, 0, 0x10, 0]),
        vec![
            Frame { opcode: 0x41, register: 7, data: 0 },
            Frame { opcode: 0x40, register: 7, data: 0x7E },
            Frame { opcode: 0x41, register: 9, data: 0 },
            Frame { opcode: 0x40, register: 9, data: 0x81 },
            Frame { opcode: 0x41, register: 5, data: 0 },
            Frame { opcode: 0x40, register: 5, data: 0x91 },
        ]
    );
}

fn broken() -> std::io::Error {
    std::io::Error::new(std::io::ErrorKind::BrokenPipe, "bus")
}

#[test]
fn a_failed_exchange_ends_the_transaction() {
    let (mut record, _, b) = ports(0);
    let (group, _) = b.group_input(&mut record, 0x01).unwrap();
    let mut transaction = group.interrupt(Edge::FallingEdge);
    let first = transaction.request().unwrap();
    assert_eq!(first, Frame { opcode: 0x41, register: 7, data: 0 });
    transaction.reply(0xFF);
    assert!(transaction.request().is_some());
    match transaction.fail(broken()) {
        Err(Error::Io(e)) => assert_eq!(e.kind(), std::io::ErrorKind::BrokenPipe),
        _ => panic!("the failure was not passed on"),
    }
    assert!(transaction.has_failed());
    assert!(transaction.is_finished());
    assert_eq!(transaction.request(), None);
    assert_eq!(transaction.completed(), 0);
    transaction.reply(0);
    assert_eq!(transaction.request(), None);
}

#[test]
fn a_failed_exchange_of_a_release_ends_quietly() {
    let (mut record, a, _) = ports(0);
    let (output, _) = a.output(&mut record, 1).unwrap();
    let mut release = output.release(&mut record);
    assert!(matches!(release.fail(broken()), Ok(None)));
    assert!(release.is_finished());
    assert_eq!(release.request(), None);
    let mut whole = Transaction::new(0, vec![], false).unwrap();
    assert!(matches!(whole.finish(), Ok(None)));
}

#[test]
fn interrupt_on_a_failing_bus() {
    let (mut record, _, b) = ports(0);
    let (group, _) = b.group_input(&mut record, 0x01).unwrap();
    for exchanges in 0..6 {
        let mut chip = Chip::new(0);
        preset(&mut chip, MCP23X17Register::DEFVAL(1), 0xFF);
        let mut transaction = group.interrupt(Edge::FallingEdge);
        let outcome = chip.serve_until(&mut transaction, exchanges, broken());
        assert!(matches!(outcome, Err(Error::Io(_))));
        assert!(transaction.has_failed());
        assert_eq!(transaction.request(), None);
        assert_eq!(transaction.completed(), exchanges / 2);
        assert_eq!(chip.register(MCP23X17Register::GPINTEN(1)), 0);
        let defval = if exchanges >= 2 { 0xFE } else { 0xFF };
        let intcon = if exchanges >= 4 { 0x01 } else { 0x00 };
        assert_eq!(chip.register(MCP23X17Register::DEFVAL(1)), defval);
        assert_eq!(chip.register(MCP23X17Register::INTCON(1)), intcon);
    }
    let mut chip = Chip::new(0);
    let mut transaction = group.interrupt(Edge::FallingEdge);
    assert!(matches!(chip.serve_until(&mut transaction, 6, broken()), Ok(None)));
    assert!(!transaction.has_failed());
    assert_eq!(chip.register(MCP23X17Register::GPINTEN(1)), 0x01);
}

#[test]
fn read_on_a_failing_bus() {
    let (mut record, _, b) = ports(0);
    let (input, _) = b.input(&mut record, 0).unwrap();
    let mut chip = Chip::new(0);
    preset(&mut chip, MCP23X17Register::GPIO(1), 0x81);
    let mut read = input.digital_read();
    assert!(matches!(chip.serve_until(&mut read, 1, broken()), Ok(Some(0x81))));
    let mut read = input.digital_read();
    assert!(matches!(chip.serve_until(&mut read, 0, broken()), Err(Error::Io(_))));
    assert_eq!(read.result(), None);
}
