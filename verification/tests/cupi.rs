use cupi::bcm270x::{GPIORegister, PinOptions, PullUpDnControl, Step};
use cupi::board::{detect_board, RaspberryMemory};
use cupi::sys::cpuinfo;
use cupi::{
    is_root, Board, CuPi, Error, Hardware, RaspberryMaker, RaspberryModel, RaspberryRevision, CPU,
};

fn model_b(cpu: CPU) -> Board {
    Board {
        hardware: Hardware::RaspberryPi(
            RaspberryModel::B,
            RaspberryRevision::V2,
            RaspberryMemory(512),
            RaspberryMaker::Sony,
        ),
        cpu,
        overvolted: false,
    }
}

#[test]
fn privileged_board_has_its_block() {
    let cupi = CuPi::with_privilege(model_b(CPU::BCM2708), true).unwrap();
    assert_eq!(cupi.board, model_b(CPU::BCM2708));
    assert_eq!(
        cupi.pin(0).unwrap(),
        PinOptions { pin: 17, pull_ctrl: Some(PullUpDnControl::PullOff), default_value: 0 }
    );
    assert_eq!(cupi.pin(20).unwrap().pin, 31);
    assert!(matches!(cupi.pin(21), Err(Error::UnconnectedPin)));
}

#[test]
fn privileged_board_needs_a_known_processor() {
    assert!(matches!(
        CuPi::with_privilege(model_b(CPU::Unknown), true),
        Err(Error::UnsupportedHardware)
    ));
    assert!(CuPi::with_privilege(model_b(CPU::Unknown), false).is_ok());
}

#[test]
fn unprivileged_board_cannot_drive_the_block() {
    let mut cupi = CuPi::with_privilege(model_b(CPU::BCM2709), false).unwrap();
    assert!(matches!(cupi.pin(0), Err(Error::RootRequired)));
    assert!(matches!(cupi.pin(21), Err(Error::UnconnectedPin)));
    let options = PinOptions { pin: 17, pull_ctrl: None, default_value: 0 };
    assert!(matches!(cupi.input(&options), Err(Error::RootRequired)));
    assert!(matches!(cupi.output(&options), Err(Error::RootRequired)));
    let pin = cupi.pin_sys(0).unwrap();
    assert_eq!(pin.pin(), 17);
    assert!(!pin.exported());
}

#[test]
fn unknown_board_has_no_pins() {
    let board = Board { hardware: Hardware::Unknown, cpu: CPU::BCM2709, overvolted: false };
    let cupi = CuPi::with_privilege(board, true).unwrap();
    assert!(matches!(cupi.pin(0), Err(Error::UnsupportedHardware)));
    assert!(matches!(cupi.pin_sys(0), Err(Error::UnsupportedHardware)));
}

#[test]
fn board_claims_track_the_lines() {
    let mut cupi = CuPi::with_privilege(model_b(CPU::BCM2709), true).unwrap();
    let mut options = cupi.pin(0).unwrap();
    options.set(1);
    let (output, steps) = cupi.output(&options).unwrap();
    assert_eq!(output.pin(), 17);
    assert_eq!(
        steps[1],
        Step::Write { register: GPIORegister::GPIOPinOutputSet(0), data: 1 << 17 }
    );
    assert!(matches!(cupi.output(&options), Err(Error::AlreadyClaimed)));
    assert!(matches!(cupi.input(&options), Err(Error::AlreadyClaimed)));
    let other = cupi.pin(1).unwrap();
    let (input, steps) = cupi.input(&other).unwrap();
    assert_eq!(input.pin(), 18);
    assert_eq!(steps.len(), 9);
    let far = PinOptions { pin: 60, pull_ctrl: None, default_value: 0 };
    assert!(matches!(cupi.input(&far), Err(Error::UnconnectedPin)));
}

#[test]
fn board_of_the_running_process() {
    let text = b"Hardware\t: BCM2709\nRevision\t: a02082\n";
    let cupi = CuPi::new(&Ok(cpuinfo(text))).unwrap();
    assert_eq!(cupi.board.cpu, CPU::BCM2709);
    assert_eq!(cupi.base().is_some(), is_root());
    match cupi.pin(0) {
        Ok(options) => {
            assert!(is_root());
            assert_eq!(options.pin, 17);
        },
        Err(e) => {
            assert!(!is_root());
            assert!(matches!(e, Error::RootRequired));
        },
    }
}

#[test]
fn board_after_a_failed_read() {
    let failure = std::io::Error::new(std::io::ErrorKind::NotFound, "no cpuinfo");
    let read = Err(Error::Io(failure));
    assert_eq!(
        detect_board(&read),
        Board { hardware: Hardware::Unknown, cpu: CPU::Unknown, overvolted: false }
    );
    match CuPi::new(&read) {
        Ok(cupi) => {
            assert!(!is_root());
            assert_eq!(cupi.board.hardware, Hardware::Unknown);
            assert_eq!(cupi.base(), None);
        },
        Err(e) => {
            assert!(is_root());
            assert!(matches!(e, Error::UnsupportedHardware));
        },
    }
    let read = Ok(cpuinfo(b"Hardware: BCM2708\nRevision: 000e\n"));
    assert_eq!(detect_board(&read).cpu, CPU::BCM2708);
}

#[test]
fn board_releases() {
    let mut cupi = CuPi::with_privilege(model_b(CPU::BCM2709), true).unwrap();
    assert_eq!(cupi.base(), Some(0x3F200000));
    let options = cupi.pin(0).unwrap();
    let (output, _) = cupi.output(&options).unwrap();
    assert_eq!(output.base(), 0x3F200000);
    let steps = cupi.release_output(output);
    assert_eq!(
        steps,
        vec![Step::BitAnd { register: GPIORegister::GPIOFunctionSelect(1), data: !(0b111 << 21) }]
    );
    let (input, _) = cupi.input(&options).unwrap();
    assert!(matches!(cupi.output(&options), Err(Error::AlreadyClaimed)));
    assert!(cupi.release_input(input).is_empty());
    assert!(cupi.output(&options).is_ok());
    let mut other = CuPi::with_privilege(model_b(CPU::BCM2708), true).unwrap();
    let (foreign, _) = other.input(&options).unwrap();
    assert!(cupi.release_input(foreign).is_empty());
    assert!(matches!(cupi.output(&options), Err(Error::AlreadyClaimed)));
    assert!(CuPi::with_privilege(model_b(CPU::BCM2709), false).unwrap().base().is_none());
}
