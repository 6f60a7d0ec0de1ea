use cupi::hat::piface::{PIFACE_ADDRESS, PIFACE_INTERRUPT_LINE};
use cupi::hat::PiFace;
use cupi::mcp23x17::{BusSettings, Chip, Frame, MCP23X17Register, Transaction};
use cupi::sys::{Action, ControlFile, Edge, Interest, Payload};
use cupi::{Error, Logic};

fn frames(transaction: &mut Transaction, answers: &[u8]) -> Vec<Frame> {
    let mut sent = Vec::new();
    let mut answers = answers.iter();
    while let Some(frame) = transaction.request() {
        sent.push(frame);
        transaction.reply(*answers.next().unwrap_or(&0));
    }
    sent
}

#[test]
fn piface_needs_privilege() {
    assert!(matches!(PiFace::with_privilege(false), Err(Error::RootRequired)));
    assert_eq!(PIFACE_ADDRESS, 0);
    assert_eq!(PIFACE_INTERRUPT_LINE, 25);
}

#[test]
fn piface_of_the_running_process() {
    match PiFace::new() {
        Ok((_, setup)) => assert_eq!(setup.export.len(), 2),
        Err(e) => assert!(matches!(e, Error::RootRequired)),
    }
}

#[test]
fn piface_setup() {
    let (_, mut setup) = PiFace::with_privilege(true).unwrap();
    assert_eq!(setup.bus, BusSettings { bits_per_word: 8, max_speed_hz: 4_000_000, mode: 0 });
    assert_eq!(
        frames(&mut setup.configure, &[]),
        vec![
            Frame { opcode: 0x40, register: 10, data: 0x28 },
            Frame { opcode: 0x40, register: 11, data: 0x28 },
        ]
    );
    assert_eq!(
        frames(&mut setup.directions, &[0x0F]),
        vec![
            Frame { opcode: 0x41, register: 1, data: 0 },
            Frame { opcode: 0x40, register: 1, data: 0xFF },
        ]
    );
    assert_eq!(
        frames(&mut setup.pull_ups, &[0x00]),
        vec![
            Frame { opcode: 0x41, register: 13, data: 0 },
            Frame { opcode: 0x40, register: 13, data: 0xFF },
        ]
    );
    assert_eq!(
        setup.export,
        vec![
            Action::Write {
                file: ControlFile::Unexport,
                payload: Payload::Line(25),
                best_effort: true
            },
            Action::Write {
                file: ControlFile::Export,
                payload: Payload::Line(25),
                best_effort: false
            },
        ]
    );
    assert_eq!(
        setup.claim,
        vec![
            Action::Write {
                file: ControlFile::Direction(25),
                payload: Payload::In,
                best_effort: false
            },
            Action::Open { file: ControlFile::Value(25), writable: false },
        ]
    );
}

#[test]
fn piface_on_the_chip() {
    let mut chip = Chip::new(0);
    let (mut board, mut setup) = PiFace::with_privilege(true).unwrap();
    chip.serve(&mut setup.configure);
    chip.serve(&mut setup.directions);
    chip.serve(&mut setup.pull_ups);
    assert_eq!(chip.register(MCP23X17Register::IOCON(0)), 0x28);
    assert_eq!(chip.register(MCP23X17Register::IODIR(1)), 0xFF);
    assert_eq!(chip.register(MCP23X17Register::GPPU(1)), 0xFF);
    let (output, mut claim) = board.output(2).unwrap();
    assert_eq!((output.port(), output.pin()), (0, 2));
    chip.serve(&mut claim);
    assert_eq!(chip.register(MCP23X17Register::IODIR(0)), 0b1111_1011);
    chip.serve(&mut output.digital_write(Logic::High));
    assert_eq!(chip.register(MCP23X17Register::GPIO(0)), 0b0000_0100);
    let (input, mut claim) = board.input(2).unwrap();
    assert_eq!((input.port(), input.pin()), (1, 2));
    chip.serve(&mut claim);
    assert_eq!(chip.register(MCP23X17Register::IODIR(1)), 0xFF);
    assert!(matches!(board.output(2), Err(Error::AlreadyClaimed)));
    assert!(matches!(board.input(2), Err(Error::AlreadyClaimed)));
    let (outputs, mut claim) = board.group_output(0b1111_0000).unwrap();
    assert_eq!((outputs.port(), outputs.mask()), (0, 0b1111_0000));
    chip.serve(&mut claim);
    assert_eq!(chip.register(MCP23X17Register::IODIR(0)), 0b0000_1011);
    board.release_input(input);
    assert!(board.input(2).is_ok());
    let mut revert = board.release_output(output);
    assert!(revert.is_best_effort());
    chip.serve(&mut revert);
    assert_eq!(chip.register(MCP23X17Register::IODIR(0)), 0b0000_1111);
    assert!(board.output(2).is_ok());
    chip.serve(&mut board.release_group_output(outputs));
    assert_eq!(chip.register(MCP23X17Register::IODIR(0)), 0b1111_1111);
    let (outputs, _) = board.group_output(0b1111_0000).unwrap();
    let (inputs, _) = board.group_input(0b0000_0011).unwrap();
    assert_eq!((inputs.port(), inputs.mask()), (1, 0b0000_0011));
    assert!(matches!(board.group_input(0b0000_0110), Err(Error::AlreadyClaimed)));
    assert!(matches!(board.group_output(0b0001_0000), Err(Error::AlreadyClaimed)));
    board.release_group_input(inputs);
    assert!(board.group_input(0b0000_0011).is_ok());
    assert_eq!(outputs.mask(), 0b1111_0000);
}

#[test]
fn piface_comes_back_with_no_line_held() {
    let (mut board, _) = PiFace::with_privilege(true).unwrap();
    for pin in 0..8 {
        assert!(board.input(pin).is_ok());
        assert!(board.output(pin).is_ok());
    }
    assert!(matches!(board.group_input(0xFF), Err(Error::AlreadyClaimed)));
}

#[test]
fn piface_release() {
    let (mut board, _) = PiFace::with_privilege(true).unwrap();
    assert!(PiFace::with_privilege(true).unwrap().0.release().is_empty());
    board.complete_export(Ok(())).unwrap();
    assert_eq!(
        board.release(),
        vec![Action::Write {
            file: ControlFile::Unexport,
            payload: Payload::Line(25),
            best_effort: true
        }]
    );
}

#[test]
fn piface_interrupt() {
    let (mut board, _) = PiFace::with_privilege(true).unwrap();
    assert_eq!(
        board.trigger(9),
        vec![
            Action::Write {
                file: ControlFile::EdgeMode(25),
                payload: Payload::Trigger(Edge::FallingEdge),
                best_effort: false
            },
            Action::Drain,
            Action::Register {
                token: 9,
                interest: Interest { readable: true, edge_triggered: true, urgent: true }
            },
        ]
    );
    assert_eq!(board.stop_trigger(), vec![Action::Deregister]);
    assert!(board.complete_export(Ok(())).is_ok());
    let failure = std::io::Error::new(std::io::ErrorKind::Other, "busy");
    assert!(matches!(board.complete_export(Err(Error::Io(failure))), Err(Error::Io(_))));
}
