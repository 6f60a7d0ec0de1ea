use cupi::board::{decode_revision, detect_cpu, lookup_revision, RaspberryMemory};
use cupi::sys::{cpuinfo, CPUInfo};
use cupi::{
    board, Board, Error, Hardware, RaspberryMaker, RaspberryModel, RaspberryRevision, CPU,
};

const TABLE: [usize; 32] = [
    17, 18, 27, 22, 23, 24, 25, 4, 2, 3, 8, 7, 10, 9, 11, 14, 15, 28, 29, 30, 31, 5, 6, 13, 19, 26,
    12, 16, 20, 21, 0, 1,
];

fn raspberry(model: RaspberryModel) -> Board {
    Board {
        hardware: Hardware::RaspberryPi(
            model,
            RaspberryRevision::V2,
            RaspberryMemory(512),
            RaspberryMaker::Sony,
        ),
        cpu: CPU::BCM2708,
        overvolted: false,
    }
}

fn info(entries: &[(&str, &str)]) -> CPUInfo {
    CPUInfo(
        entries
            .iter()
            .map(|(key, value)| (key.as_bytes().to_vec(), value.as_bytes().to_vec()))
            .collect(),
    )
}

#[test]
fn pin_to_gpio_follows_the_table() {
    let board = raspberry(RaspberryModel::P2);
    for pin in 0..32 {
        assert!(matches!(board.pin_to_gpio(pin), Ok(line) if line == TABLE[pin]));
    }
    assert!(matches!(board.pin_to_gpio(0), Ok(17)));
    assert!(matches!(board.pin_to_gpio(7), Ok(4)));
    assert!(matches!(board.pin_to_gpio(31), Ok(1)));
}

#[test]
fn pin_to_gpio_is_stable() {
    let board = raspberry(RaspberryModel::BP);
    for pin in 0..40 {
        let first = board.pin_to_gpio(pin).ok();
        let second = board.pin_to_gpio(pin).ok();
        assert_eq!(first, second);
    }
}

#[test]
fn pin_to_gpio_refuses_pins_out_of_range() {
    let later = raspberry(RaspberryModel::P3);
    assert!(matches!(later.pin_to_gpio(32), Err(Error::UnconnectedPin)));
    assert!(matches!(later.pin_to_gpio(usize::MAX), Err(Error::UnconnectedPin)));
    for model in [RaspberryModel::A, RaspberryModel::B] {
        let early = raspberry(model);
        assert!(matches!(early.pin_to_gpio(20), Ok(31)));
        assert!(matches!(early.pin_to_gpio(21), Err(Error::UnconnectedPin)));
        assert!(matches!(early.pin_to_gpio(31), Err(Error::UnconnectedPin)));
    }
    for model in [
        RaspberryModel::BP,
        RaspberryModel::AP,
        RaspberryModel::CM,
        RaspberryModel::P0,
        RaspberryModel::P2,
        RaspberryModel::P3,
        RaspberryModel::UN,
    ] {
        assert!(matches!(raspberry(model).pin_to_gpio(21), Ok(5)));
    }
}

#[test]
fn pin_to_gpio_refuses_unknown_hardware() {
    let board = Board { hardware: Hardware::Unknown, cpu: CPU::Unknown, overvolted: false };
    assert!(matches!(board.pin_to_gpio(0), Err(Error::UnsupportedHardware)));
    assert!(matches!(board.pin_to_gpio(99), Err(Error::UnsupportedHardware)));
}

#[test]
fn no_two_pins_share_a_line() {
    let board = raspberry(RaspberryModel::P2);
    let mut seen = [false; 32];
    for pin in 0..32 {
        let line = board.pin_to_gpio(pin).unwrap();
        assert!(line < 32);
        assert!(!seen[line]);
        seen[line] = true;
    }
}

#[test]
fn model_pins() {
    assert_eq!(RaspberryModel::A.pins(), 21);
    assert_eq!(RaspberryModel::B.pins(), 21);
    assert_eq!(RaspberryModel::BP.pins(), 32);
    assert_eq!(RaspberryModel::UN.pins(), 32);
}

#[test]
fn names() {
    assert_eq!(RaspberryModel::A.as_str(), "Model A");
    assert_eq!(RaspberryModel::B.as_str(), "Model B");
    assert_eq!(RaspberryModel::BP.as_str(), "Model B+");
    assert_eq!(RaspberryModel::AP.as_str(), "Model A+");
    assert_eq!(RaspberryModel::CM.as_str(), "Compute Module");
    assert_eq!(RaspberryModel::P0.as_str(), "Zero");
    assert_eq!(RaspberryModel::P2.as_str(), "Model 2");
    assert_eq!(RaspberryModel::P3.as_str(), "Model 3");
    assert_eq!(RaspberryModel::UN.as_str(), "Unknown");
    assert_eq!(RaspberryRevision::R(0).as_str(), "R00");
    assert_eq!(RaspberryRevision::R(5).as_str(), "R05");
    assert_eq!(RaspberryRevision::R(6).as_str(), "Unknown");
    assert_eq!(RaspberryRevision::V1.as_str(), "V1");
    assert_eq!(RaspberryRevision::V11.as_str(), "V1.1");
    assert_eq!(RaspberryRevision::V12.as_str(), "V1.2");
    assert_eq!(RaspberryRevision::V2.as_str(), "V2");
    assert_eq!(RaspberryRevision::UN.as_str(), "Unknown");
    assert_eq!(RaspberryMemory(0).as_str(), "Unknown");
    assert_eq!(RaspberryMemory(256).as_str(), "256M");
    assert_eq!(RaspberryMemory(512).as_str(), "512M");
    assert_eq!(RaspberryMemory(1024).as_str(), "1G");
    assert_eq!(RaspberryMemory(2048).as_str(), "?");
    assert_eq!(RaspberryMaker::Egoman.as_str(), "Egoman");
    assert_eq!(RaspberryMaker::Sony.as_str(), "Sony");
    assert_eq!(RaspberryMaker::Qisda.as_str(), "Qisda");
    assert_eq!(RaspberryMaker::Embest.as_str(), "Embest");
    assert_eq!(RaspberryMaker::Unknown.as_str(), "Unknown");
}

#[test]
fn detects_the_processor() {
    let first = b"BCM2708".to_vec();
    let second = b"BCM2709".to_vec();
    let other = b"BCM2835".to_vec();
    assert_eq!(detect_cpu(Some(&first)), CPU::BCM2708);
    assert_eq!(detect_cpu(Some(&second)), CPU::BCM2709);
    assert_eq!(detect_cpu(Some(&other)), CPU::Unknown);
    assert_eq!(detect_cpu(None), CPU::Unknown);
}

#[test]
fn decodes_a_coded_revision() {
    assert_eq!(
        decode_revision(0xa02082),
        Hardware::RaspberryPi(
            RaspberryModel::P3,
            RaspberryRevision::R(2),
            RaspberryMemory(1024),
            RaspberryMaker::Sony
        )
    );
    assert_eq!(
        decode_revision(0xa21041),
        Hardware::RaspberryPi(
            RaspberryModel::P2,
            RaspberryRevision::R(1),
            RaspberryMemory(1024),
            RaspberryMaker::Embest
        )
    );
    assert_eq!(
        decode_revision(0x900092),
        Hardware::RaspberryPi(
            RaspberryModel::P0,
            RaspberryRevision::R(2),
            RaspberryMemory(512),
            RaspberryMaker::Sony
        )
    );
    assert_eq!(
        decode_revision(0x8310f5),
        Hardware::RaspberryPi(
            RaspberryModel::UN,
            RaspberryRevision::R(5),
            RaspberryMemory(256),
            RaspberryMaker::Unknown
        )
    );
    assert_eq!(
        decode_revision(0xb10010),
        Hardware::RaspberryPi(
            RaspberryModel::B,
            RaspberryRevision::R(0),
            RaspberryMemory(0),
            RaspberryMaker::Egoman
        )
    );
}

#[test]
fn looks_up_a_listed_revision() {
    let pi = Hardware::RaspberryPi;
    assert_eq!(
        lookup_revision(b"0002"),
        pi(RaspberryModel::B, RaspberryRevision::V1, RaspberryMemory(256), RaspberryMaker::Egoman)
    );
    assert_eq!(
        lookup_revision(b"0003"),
        pi(RaspberryModel::B, RaspberryRevision::V11, RaspberryMemory(256), RaspberryMaker::Egoman)
    );
    assert_eq!(
        lookup_revision(b"0004"),
        pi(RaspberryModel::B, RaspberryRevision::V2, RaspberryMemory(256), RaspberryMaker::Sony)
    );
    for code in [b"0005", b"0009"] {
        assert_eq!(
            lookup_revision(code),
            pi(RaspberryModel::B, RaspberryRevision::V2, RaspberryMemory(256), RaspberryMaker::Qisda)
        );
    }
    for code in [b"0006", b"0007"] {
        assert_eq!(
            lookup_revision(code),
            pi(RaspberryModel::B, RaspberryRevision::V2, RaspberryMemory(256), RaspberryMaker::Egoman)
        );
    }
    assert_eq!(
        lookup_revision(b"0008"),
        pi(RaspberryModel::A, RaspberryRevision::V2, RaspberryMemory(256), RaspberryMaker::Sony)
    );
    for code in [b"000d", b"000f"] {
        assert_eq!(
            lookup_revision(code),
            pi(RaspberryModel::B, RaspberryRevision::V2, RaspberryMemory(512), RaspberryMaker::Egoman)
        );
    }
    assert_eq!(
        lookup_revision(b"000e"),
        pi(RaspberryModel::B, RaspberryRevision::V2, RaspberryMemory(512), RaspberryMaker::Sony)
    );
    assert_eq!(
        lookup_revision(b"0010"),
        pi(RaspberryModel::BP, RaspberryRevision::V12, RaspberryMemory(512), RaspberryMaker::Sony)
    );
    for code in [b"0011", b"0014"] {
        assert_eq!(
            lookup_revision(code),
            pi(RaspberryModel::CM, RaspberryRevision::V12, RaspberryMemory(512), RaspberryMaker::Sony)
        );
    }
    assert_eq!(
        lookup_revision(b"0012"),
        pi(RaspberryModel::AP, RaspberryRevision::V12, RaspberryMemory(256), RaspberryMaker::Sony)
    );
    assert_eq!(
        lookup_revision(b"0013"),
        pi(RaspberryModel::BP, RaspberryRevision::V12, RaspberryMemory(512), RaspberryMaker::Egoman)
    );
    assert_eq!(
        lookup_revision(b"0015"),
        pi(RaspberryModel::AP, RaspberryRevision::V11, RaspberryMemory(256), RaspberryMaker::Sony)
    );
    for code in [&b"0001"[..], &b"000E"[..], &b"ffff"[..], &b""[..], &b"2"[..]] {
        assert_eq!(
            lookup_revision(code),
            pi(RaspberryModel::UN, RaspberryRevision::UN, RaspberryMemory(0), RaspberryMaker::Unknown)
        );
    }
}

#[test]
fn board_from_a_coded_revision() {
    let found = board(&info(&[("Hardware", "BCM2709"), ("Revision", "a02082")]));
    assert_eq!(found.cpu, CPU::BCM2709);
    assert!(!found.overvolted);
    assert_eq!(
        found.hardware,
        Hardware::RaspberryPi(
            RaspberryModel::P3,
            RaspberryRevision::R(2),
            RaspberryMemory(1024),
            RaspberryMaker::Sony
        )
    );
}

#[test]
fn board_from_a_listed_revision() {
    let found = board(&info(&[("Hardware", "BCM2708"), ("Revision", "000e")]));
    assert_eq!(found.cpu, CPU::BCM2708);
    assert!(!found.overvolted);
    assert_eq!(
        found.hardware,
        Hardware::RaspberryPi(
            RaspberryModel::B,
            RaspberryRevision::V2,
            RaspberryMemory(512),
            RaspberryMaker::Sony
        )
    );
}

#[test]
fn board_that_was_overvolted() {
    let found = board(&info(&[("Hardware", "BCM2708"), ("Revision", "1000002")]));
    assert!(found.overvolted);
    assert_eq!(
        found.hardware,
        Hardware::RaspberryPi(
            RaspberryModel::B,
            RaspberryRevision::V1,
            RaspberryMemory(256),
            RaspberryMaker::Egoman
        )
    );
}

#[test]
fn board_with_a_short_revision() {
    let found = board(&info(&[("Hardware", "BCM2708"), ("Revision", "2")]));
    assert!(!found.overvolted);
    assert_eq!(
        found.hardware,
        Hardware::RaspberryPi(
            RaspberryModel::UN,
            RaspberryRevision::UN,
            RaspberryMemory(0),
            RaspberryMaker::Unknown
        )
    );
}

#[test]
fn board_without_a_readable_revision() {
    for revision in ["", "+", "xyz", "00 0e", "-2", "1ffffffffffffffff"] {
        let found = board(&info(&[("Hardware", "BCM2709"), ("Revision", revision)]));
        assert_eq!(found.hardware, Hardware::Unknown);
        assert_eq!(found.cpu, CPU::BCM2709);
        assert!(!found.overvolted);
    }
    let found = board(&info(&[("Hardware", "BCM2709")]));
    assert_eq!(found.hardware, Hardware::Unknown);
    assert_eq!(found.cpu, CPU::BCM2709);
    let found = board(&info(&[]));
    assert_eq!(
        found,
        Board { hardware: Hardware::Unknown, cpu: CPU::Unknown, overvolted: false }
    );
}

#[test]
fn board_takes_the_last_entry_of_a_key() {
    let found = board(&info(&[
        ("Revision", "0002"),
        ("Hardware", "BCM2708"),
        ("Revision", "0010"),
        ("Hardware", "BCM2709"),
    ]));
    assert_eq!(found.cpu, CPU::BCM2709);
    assert_eq!(
        found.hardware,
        Hardware::RaspberryPi(
            RaspberryModel::BP,
            RaspberryRevision::V12,
            RaspberryMemory(512),
            RaspberryMaker::Sony
        )
    );
}

#[test]
fn board_from_the_text_of_the_kernel() {
    let text = b"processor\t: 0\nmodel name\t: ARMv7 Processor rev 4 (v7l)\n\nHardware\t: BCM2709\nRevision\t: a02082\nSerial\t\t: 00000000deadbeef\n";
    let found = board(&cpuinfo(text));
    assert_eq!(found.cpu, CPU::BCM2709);
    assert_eq!(
        found.hardware,
        Hardware::RaspberryPi(
            RaspberryModel::P3,
            RaspberryRevision::R(2),
            RaspberryMemory(1024),
            RaspberryMaker::Sony
        )
    );
}

#[test]
fn revision_with_a_plus_sign() {
    let found = board(&info(&[("Revision", "+0010")]));
    assert!(found.overvolted);
    assert_eq!(
        found.hardware,
        Hardware::RaspberryPi(
            RaspberryModel::BP,
            RaspberryRevision::V12,
            RaspberryMemory(512),
            RaspberryMaker::Sony
        )
    );
}
