use vstd::prelude::*;
use vstd::string::StringSliceAdditionalSpecFns;
use crate::result::Error;
use crate::sys::{lookup, CPUInfo};
use crate::text::{bytes_eq, copy_range, number_value, parse_number};

verus! {

/// What is known of the board that the process runs on.
#[derive(Clone, Copy, Debug, PartialEq, Eq, Structural)]
pub struct Board {
    pub hardware: Hardware,
    pub cpu: CPU,
    pub overvolted: bool,
}

/// The kind of board.
#[derive(Clone, Copy, Debug, PartialEq, Eq, Structural)]
pub enum Hardware {
    RaspberryPi(RaspberryModel, RaspberryRevision, RaspberryMemory, RaspberryMaker),
    Unknown,
}

/// The system-on-chip generations that the library can drive.
#[derive(Clone, Copy, Debug, PartialEq, Eq, Structural)]
pub enum CPU {
    BCM2708,
    BCM2709,
    Unknown,
}

/// The models of the Raspberry Pi.
#[derive(Clone, Copy, Debug, PartialEq, Eq, Structural)]
pub enum RaspberryModel {
    A,
    B,
    BP,
    AP,
    CM,
    P0,
    P2,
    P3,
    UN,
}

/// The revisions of a Raspberry Pi board.
#[derive(Clone, Copy, Debug, PartialEq, Eq, Structural)]
pub enum RaspberryRevision {
    R(u8),
    V1,
    V11,
    V12,
    V2,
    UN,
}

/// The memory of a Raspberry Pi, in megabytes; zero where it is not known.
#[derive(Clone, Copy, Debug, PartialEq, Eq, Structural)]
pub struct RaspberryMemory(pub u32);

/// The makers of Raspberry Pi boards.
#[derive(Clone, Copy, Debug, PartialEq, Eq, Structural)]
pub enum RaspberryMaker {
    Egoman,
    Sony,
    Qisda,
    Embest,
    Unknown,
}

impl RaspberryModel {
    /// The name of the model.
    pub open spec fn spec_name(&self) -> &'static str {
        match *self {
            RaspberryModel::A => "Model A",
            RaspberryModel::B => "Model B",
            RaspberryModel::BP => "Model B+",
            RaspberryModel::AP => "Model A+",
            RaspberryModel::CM => "Compute Module",
            RaspberryModel::P0 => "Zero",
            RaspberryModel::P2 => "Model 2",
            RaspberryModel::P3 => "Model 3",
            RaspberryModel::UN => "Unknown",
        }
    }

    /// Returns the name of the model.
    pub fn as_str(&self) -> (out: &'static str)
        ensures
            out == self.spec_name(),
    {
        match *self {
            RaspberryModel::A => "Model A",
            RaspberryModel::B => "Model B",
            RaspberryModel::BP => "Model B+",
            RaspberryModel::AP => "Model A+",
            RaspberryModel::CM => "Compute Module",
            RaspberryModel::P0 => "Zero",
            RaspberryModel::P2 => "Model 2",
            RaspberryModel::P3 => "Model 3",
            RaspberryModel::UN => "Unknown",
        }
    }

    /// The number of pins that the header of the model has wired.
    pub open spec fn spec_pins(&self) -> usize {
        match *self {
            RaspberryModel::B => 21,
            RaspberryModel::A => 21,
            _ => 32,
        }
    }

    /// Returns the number of pins that the header of the model has wired.
    pub fn pins(&self) -> (out: usize)
        ensures
            out == self.spec_pins(),
    {
        match *self {
            RaspberryModel::B | RaspberryModel::A => 21,
            _ => 32,
        }
    }
}

impl RaspberryRevision {
    /// The name of the revision.
    pub open spec fn spec_name(&self) -> &'static str {
        match *self {
            RaspberryRevision::R(r) => if r == 0 {
                "R00"
            } else if r == 1 {
                "R01"
            } else if r == 2 {
                "R02"
            } else if r == 3 {
                "R03"
            } else if r == 4 {
                "R04"
            } else if r == 5 {
                "R05"
            } else {
                "Unknown"
            },
            RaspberryRevision::V1 => "V1",
            RaspberryRevision::V11 => "V1.1",
            RaspberryRevision::V12 => "V1.2",
            RaspberryRevision::V2 => "V2",
            RaspberryRevision::UN => "Unknown",
        }
    }

    /// Returns the name of the revision.
    pub fn as_str(&self) -> (out: &'static str)
        ensures
            out == self.spec_name(),
    {
        match *self {
            RaspberryRevision::R(r) => match r {
                0 => "R00",
                1 => "R01",
                2 => "R02",
                3 => "R03",
                4 => "R04",
                5 => "R05",
                _ => "Unknown",
            },
            RaspberryRevision::V1 => "V1",
            RaspberryRevision::V11 => "V1.1",
            RaspberryRevision::V12 => "V1.2",
            RaspberryRevision::V2 => "V2",
            RaspberryRevision::UN => "Unknown",
        }
    }
}

impl RaspberryMemory {
    /// The name of the amount of memory.
    pub open spec fn spec_name(&self) -> &'static str {
        if self.0 == 0 {
            "Unknown"
        } else if self.0 == 256 {
            "256M"
        } else if self.0 == 512 {
            "512M"
        } else if self.0 == 1024 {
            "1G"
        } else {
            "?"
        }
    }

    /// Returns the name of the amount of memory.
    pub fn as_str(&self) -> (out: &'static str)
        ensures
            out == self.spec_name(),
    {
        match self.0 {
            0 => "Unknown",
            256 => "256M",
            512 => "512M",
            1024 => "1G",
            _ => "?",
        }
    }
}

impl RaspberryMaker {
    /// The name of the maker.
    pub open spec fn spec_name(&self) -> &'static str {
        match *self {
            RaspberryMaker::Egoman => "Egoman",
            RaspberryMaker::Sony => "Sony",
            RaspberryMaker::Qisda => "Qisda",
            RaspberryMaker::Embest => "Embest",
            RaspberryMaker::Unknown => "Unknown",
        }
    }

    /// Returns the name of the maker.
    pub fn as_str(&self) -> (out: &'static str)
        ensures
            out == self.spec_name(),
    {
        match *self {
            RaspberryMaker::Egoman => "Egoman",
            RaspberryMaker::Sony => "Sony",
            RaspberryMaker::Qisda => "Qisda",
            RaspberryMaker::Embest => "Embest",
            RaspberryMaker::Unknown => "Unknown",
        }
    }
}

/// The line of the GPIO block that each pin of the header is wired to:
/// first the eight primary pins, then the additional ones, then those of
/// the second revision of the model B, then those of the later models.
pub open spec fn pin_table() -> Seq<usize> {
    seq![
        17, 18, 27, 22, 23, 24, 25, 4,
        2, 3, 8, 7, 10, 9, 11, 14, 15,
        28, 29, 30, 31,
        5, 6, 13, 19, 26, 12, 16, 20, 21, 0, 1,
    ]
}

/// The line that pin `pin` of the header is wired to on the board. A pin
/// that the model does not have wired is unconnected; an unknown board is
/// unsupported, whatever the pin.
pub open spec fn line_of(board: Board, pin: usize) -> Result<usize, Error> {
    match board.hardware {
        Hardware::RaspberryPi(model, _, _, _) => if pin < model.spec_pins() {
            Ok(pin_table()[pin as int])
        } else {
            Err(Error::UnconnectedPin)
        },
        Hardware::Unknown => Err(Error::UnsupportedHardware),
    }
}

fn table_entry(pin: usize) -> (out: usize)
    requires
        pin < 32,
    ensures
        out == pin_table()[pin as int],
        out < 32,
{
    let table: [usize; 32] = [
        17, 18, 27, 22, 23, 24, 25, 4,
        2, 3, 8, 7, 10, 9, 11, 14, 15,
        28, 29, 30, 31,
        5, 6, 13, 19, 26, 12, 16, 20, 21, 0, 1,
    ];
    assert(table@ =~= pin_table());
    table[pin]
}

impl Board {
    /// Returns the line of the GPIO block that pin `pin` of the header is
    /// wired to. A pin that the model does not have wired is refused as
    /// unconnected, and every pin of an unknown board as unsupported.
    pub fn pin_to_gpio(&self, pin: usize) -> (out: Result<usize, Error>)
        ensures
            out == line_of(*self, pin),
            out matches Ok(line) ==> line < 32,
    {
        match self.hardware {
            Hardware::RaspberryPi(model, _, _, _) => {
                let max_pins = model.pins();
                if pin >= max_pins {
                    return Err(Error::UnconnectedPin);
                }
                Ok(table_entry(pin))
            },
            Hardware::Unknown => Err(Error::UnsupportedHardware),
        }
    }
}

/// No two pins of the header are wired to the same line, and every pin is
/// wired to one of the first thirty-two lines.
pub proof fn lemma_pin_table_injective(first: usize, second: usize)
    requires
        first < 32,
        second < 32,
    ensures
        pin_table()[first as int] < 32,
        pin_table()[first as int] == pin_table()[second as int] ==> first == second,
{
    let table = pin_table();
    assert(table.len() == 32);
    assert(forall|i: int, j: int| 0 <= i < 32 && 0 <= j < 32 && table[i] == table[j] ==> i == j);
}

/// The processor that the hardware entry of the processor information names.
pub open spec fn cpu_of(hardware: Option<Seq<u8>>) -> CPU {
    match hardware {
        Some(name) => if name == "BCM2708".spec_bytes() {
            CPU::BCM2708
        } else if name == "BCM2709".spec_bytes() {
            CPU::BCM2709
        } else {
            CPU::Unknown
        },
        None => CPU::Unknown,
    }
}

/// The board that a revision code of the newer kind stands for: the
/// revision in bits 0 to 3, the model in bits 4 to 11, the maker in bits 16
/// to 19 and the memory in bits 20 to 22.
pub open spec fn coded_hardware(revision: u64) -> Hardware {
    let model_code = (revision & (0xFFu64 << 4)) >> 4;
    let maker_code = (revision & (0x0Fu64 << 16)) >> 16;
    let memory_code = (revision & (0x07u64 << 20)) >> 20;
    let model = if model_code == 0 {
        RaspberryModel::A
    } else if model_code == 1 {
        RaspberryModel::B
    } else if model_code == 2 {
        RaspberryModel::AP
    } else if model_code == 3 {
        RaspberryModel::BP
    } else if model_code == 4 {
        RaspberryModel::P2
    } else if model_code == 6 {
        RaspberryModel::CM
    } else if model_code == 8 {
        RaspberryModel::P3
    } else if model_code == 9 {
        RaspberryModel::P0
    } else {
        RaspberryModel::UN
    };
    let maker = if maker_code == 0 {
        RaspberryMaker::Sony
    } else if maker_code == 1 {
        RaspberryMaker::Egoman
    } else if maker_code == 2 || maker_code == 4 {
        RaspberryMaker::Embest
    } else {
        RaspberryMaker::Unknown
    };
    let memory = if memory_code == 0 {
        RaspberryMemory(256)
    } else if memory_code == 1 {
        RaspberryMemory(512)
    } else if memory_code == 2 {
        RaspberryMemory(1024)
    } else {
        RaspberryMemory(0)
    };
    Hardware::RaspberryPi(model, RaspberryRevision::R((revision & 0x0F) as u8), memory, maker)
}

/// The board that the last four characters of a revision code of the older
/// kind stand for.
pub open spec fn listed_hardware(code: Seq<u8>) -> Hardware {
    if code == "0002".spec_bytes() {
        Hardware::RaspberryPi(
            RaspberryModel::B,
            RaspberryRevision::V1,
            RaspberryMemory(256),
            RaspberryMaker::Egoman,
        )
    } else if code == "0003".spec_bytes() {
        Hardware::RaspberryPi(
            RaspberryModel::B,
            RaspberryRevision::V11,
            RaspberryMemory(256),
            RaspberryMaker::Egoman,
        )
    } else if code == "0004".spec_bytes() {
        Hardware::RaspberryPi(
            RaspberryModel::B,
            RaspberryRevision::V2,
            RaspberryMemory(256),
            RaspberryMaker::Sony,
        )
    } else if code == "0005".spec_bytes() || code == "0009".spec_bytes() {
        Hardware::RaspberryPi(
            RaspberryModel::B,
            RaspberryRevision::V2,
            RaspberryMemory(256),
            RaspberryMaker::Qisda,
        )
    } else if code == "0006".spec_bytes() || code == "0007".spec_bytes() {
        Hardware::RaspberryPi(
            RaspberryModel::B,
            RaspberryRevision::V2,
            RaspberryMemory(256),
            RaspberryMaker::Egoman,
        )
    } else if code == "0008".spec_bytes() {
        Hardware::RaspberryPi(
            RaspberryModel::A,
            RaspberryRevision::V2,
            RaspberryMemory(256),
            RaspberryMaker::Sony,
        )
    } else if code == "000d".spec_bytes() || code == "000f".spec_bytes() {
        Hardware::RaspberryPi(
            RaspberryModel::B,
            RaspberryRevision::V2,
            RaspberryMemory(512),
            RaspberryMaker::Egoman,
        )
    } else if code == "000e".spec_bytes() {
        Hardware::RaspberryPi(
            RaspberryModel::B,
            RaspberryRevision::V2,
            RaspberryMemory(512),
            RaspberryMaker::Sony,
        )
    } else if code == "0010".spec_bytes() {
        Hardware::RaspberryPi(
            RaspberryModel::BP,
            RaspberryRevision::V12,
            RaspberryMemory(512),
            RaspberryMaker::Sony,
        )
    } else if code == "0011".spec_bytes() || code == "0014".spec_bytes() {
        Hardware::RaspberryPi(
            RaspberryModel::CM,
            RaspberryRevision::V12,
            RaspberryMemory(512),
            RaspberryMaker::Sony,
        )
    } else if code == "0012".spec_bytes() {
        Hardware::RaspberryPi(
            RaspberryModel::AP,
            RaspberryRevision::V12,
            RaspberryMemory(256),
            RaspberryMaker::Sony,
        )
    } else if code == "0013".spec_bytes() {
        Hardware::RaspberryPi(
            RaspberryModel::BP,
            RaspberryRevision::V12,
            RaspberryMemory(512),
            RaspberryMaker::Egoman,
        )
    } else if code == "0015".spec_bytes() {
        Hardware::RaspberryPi(
            RaspberryModel::AP,
            RaspberryRevision::V11,
            RaspberryMemory(256),
            RaspberryMaker::Sony,
        )
    } else {
        Hardware::RaspberryPi(
            RaspberryModel::UN,
            RaspberryRevision::UN,
            RaspberryMemory(0),
            RaspberryMaker::Unknown,
        )
    }
}

/// The last four characters of a text, or all of it where it is shorter.
pub open spec fn last_four(text: Seq<u8>) -> Seq<u8> {
    if text.len() >= 4 {
        text.skip(text.len() - 4)
    } else {
        text
    }
}

/// The board that a revision text stands for, and whether it was
/// overvolted. A text that writes no hexadecimal number of sixty-four bits stands for no board. A
/// number with bit 23 set is a code of the newer kind. Otherwise the last
/// four characters are looked up, and characters in front of them tell that
/// the board was overvolted.
pub open spec fn revision_hardware(text: Seq<u8>) -> (Hardware, bool) {
    match number_value(text, 16) {
        Some(revision) => if revision & (1u64 << 23) != 0 {
            (coded_hardware(revision), false)
        } else {
            (listed_hardware(last_four(text)), text.len() > 4)
        },
        None => (Hardware::Unknown, false),
    }
}

/// The board that the hardware and revision entries of the processor
/// information stand for.
pub open spec fn board_of(hardware: Option<Seq<u8>>, revision: Option<Seq<u8>>) -> Board {
    match revision {
        Some(text) => Board {
            hardware: revision_hardware(text).0,
            cpu: cpu_of(hardware),
            overvolted: revision_hardware(text).1,
        },
        None => Board { hardware: Hardware::Unknown, cpu: cpu_of(hardware), overvolted: false },
    }
}

fn names(code: &[u8], text: &str) -> (out: bool)
    ensures
        out == (code@ == text.spec_bytes()),
{
    bytes_eq(code, text.as_bytes())
}

fn raspberry(
    model: RaspberryModel,
    revision: RaspberryRevision,
    memory: u32,
    maker: RaspberryMaker,
) -> (out: Hardware)
    ensures
        out == Hardware::RaspberryPi(model, revision, RaspberryMemory(memory), maker),
{
    Hardware::RaspberryPi(model, revision, RaspberryMemory(memory), maker)
}

/// Returns the board that a revision code of the newer kind stands for.
pub fn decode_revision(revision: u64) -> (out: Hardware)
    ensures
        out == coded_hardware(revision),
{
    let rev = (revision & (0x0Fu64 << 0)) >> 0;
    assert((revision & (0x0Fu64 << 0)) >> 0 == revision & 0x0F) by (bit_vector);
    assert(revision & 0x0F <= 0x0F) by (bit_vector);
    let model = match (revision & (0xFFu64 << 4)) >> 4 {
        0 => RaspberryModel::A,
        1 => RaspberryModel::B,
        2 => RaspberryModel::AP,
        3 => RaspberryModel::BP,
        4 => RaspberryModel::P2,
        6 => RaspberryModel::CM,
        8 => RaspberryModel::P3,
        9 => RaspberryModel::P0,
        _ => RaspberryModel::UN,
    };
    let maker = match (revision & (0x0Fu64 << 16)) >> 16 {
        0 => RaspberryMaker::Sony,
        1 => RaspberryMaker::Egoman,
        2 | 4 => RaspberryMaker::Embest,
        _ => RaspberryMaker::Unknown,
    };
    let memory = match (revision & (0x07u64 << 20)) >> 20 {
        0 => RaspberryMemory(256),
        1 => RaspberryMemory(512),
        2 => RaspberryMemory(1024),
        _ => RaspberryMemory(0),
    };
    Hardware::RaspberryPi(model, RaspberryRevision::R(rev as u8), memory, maker)
}

/// Returns the board that the last four characters of a revision code of
/// the older kind stand for.
pub fn lookup_revision(code: &[u8]) -> (out: Hardware)
    ensures
        out == listed_hardware(code@),
{
    if names(code, "0002") {
        raspberry(RaspberryModel::B, RaspberryRevision::V1, 256, RaspberryMaker::Egoman)
    } else if names(code, "0003") {
        raspberry(RaspberryModel::B, RaspberryRevision::V11, 256, RaspberryMaker::Egoman)
    } else if names(code, "0004") {
        raspberry(RaspberryModel::B, RaspberryRevision::V2, 256, RaspberryMaker::Sony)
    } else if names(code, "0005") || names(code, "0009") {
        raspberry(RaspberryModel::B, RaspberryRevision::V2, 256, RaspberryMaker::Qisda)
    } else if names(code, "0006") || names(code, "0007") {
        raspberry(RaspberryModel::B, RaspberryRevision::V2, 256, RaspberryMaker::Egoman)
    } else if names(code, "0008") {
        raspberry(RaspberryModel::A, RaspberryRevision::V2, 256, RaspberryMaker::Sony)
    } else if names(code, "000d") || names(code, "000f") {
        raspberry(RaspberryModel::B, RaspberryRevision::V2, 512, RaspberryMaker::Egoman)
    } else if names(code, "000e") {
        raspberry(RaspberryModel::B, RaspberryRevision::V2, 512, RaspberryMaker::Sony)
    } else if names(code, "0010") {
        raspberry(RaspberryModel::BP, RaspberryRevision::V12, 512, RaspberryMaker::Sony)
    } else if names(code, "0011") || names(code, "0014") {
        raspberry(RaspberryModel::CM, RaspberryRevision::V12, 512, RaspberryMaker::Sony)
    } else if names(code, "0012") {
        raspberry(RaspberryModel::AP, RaspberryRevision::V12, 256, RaspberryMaker::Sony)
    } else if names(code, "0013") {
        raspberry(RaspberryModel::BP, RaspberryRevision::V12, 512, RaspberryMaker::Egoman)
    } else if names(code, "0015") {
        raspberry(RaspberryModel::AP, RaspberryRevision::V11, 256, RaspberryMaker::Sony)
    } else {
        raspberry(RaspberryModel::UN, RaspberryRevision::UN, 0, RaspberryMaker::Unknown)
    }
}

/// Returns the processor that the hardware entry names.
pub fn detect_cpu(hardware: Option<&Vec<u8>>) -> (out: CPU)
    ensures
        out == cpu_of(
            match hardware {
                Some(name) => Some(name@),
                None => None,
            },
        ),
{
    match hardware {
        Some(name) => {
            if names(name.as_slice(), "BCM2708") {
                CPU::BCM2708
            } else if names(name.as_slice(), "BCM2709") {
                CPU::BCM2709
            } else {
                CPU::Unknown
            }
        },
        None => CPU::Unknown,
    }
}

/// Returns the board that the processor information describes. Where the
/// information has no revision, or one that cannot be read, the board is
/// unknown.
pub fn board(cpuinfo: &CPUInfo) -> (out: Board)
    ensures
        out == board_of(
            lookup(cpuinfo.entries(), "Hardware".spec_bytes()),
            lookup(cpuinfo.entries(), "Revision".spec_bytes()),
        ),
{
    let hardware = cpuinfo.get("Hardware".as_bytes());
    let cpu = detect_cpu(hardware);
    match cpuinfo.get("Revision".as_bytes()) {
        Some(rev) => {
            let text = rev.as_slice();
            match parse_number(text, 16) {
                Some(revision) => {
                    if (revision & (1u64 << 23)) != 0 {
                        Board { hardware: decode_revision(revision), cpu, overvolted: false }
                    } else {
                        let size = text.len();
                        let overvolted = size > 4;
                        let code = if size >= 4 {
                            copy_range(text, size - 4, size)
                        } else {
                            copy_range(text, 0, size)
                        };
                        assert(code@ =~= last_four(text@));
                        Board { hardware: lookup_revision(code.as_slice()), cpu, overvolted }
                    }
                },
                None => Board { hardware: Hardware::Unknown, cpu, overvolted: false },
            }
        },
        None => Board { hardware: Hardware::Unknown, cpu, overvolted: false },
    }
}

/// The board of which nothing is known.
pub open spec fn unknown_board() -> Board {
    Board { hardware: Hardware::Unknown, cpu: CPU::Unknown, overvolted: false }
}

/// Returns the board that the outcome of reading the processor information
/// tells of: the board that the information describes where it was read,
/// and the board of which nothing is known where the read failed. A failed
/// read is no failure of the detection.
pub fn detect_board(read: &Result<CPUInfo, Error>) -> (out: Board)
    ensures
        match *read {
            Ok(info) => out == board_of(
                lookup(info.entries(), "Hardware".spec_bytes()),
                lookup(info.entries(), "Revision".spec_bytes()),
            ),
            Err(_) => out == unknown_board(),
        },
{
    match read {
        Ok(info) => board(info),
        Err(_) => Board { hardware: Hardware::Unknown, cpu: CPU::Unknown, overvolted: false },
    }
}

} // verus!
