use vstd::prelude::*;
use vstd::string::StringSliceAdditionalSpecFns;

verus! {

/// The directory of the kernel's GPIO control files.
pub const GPIO_ROOT: &'static str = "/sys/class/gpio/";

/// The decimal digits of a number, in ASCII, most significant first.
pub open spec fn decimal_digits(n: nat) -> Seq<u8>
    decreases n,
{
    if n < 10 {
        seq![(0x30 + n) as u8]
    } else {
        decimal_digits(n / 10).push((0x30 + n % 10) as u8)
    }
}

/// The path of the control file `name` of the GPIO subsystem.
pub open spec fn control_path(name: Seq<u8>) -> Seq<u8> {
    GPIO_ROOT.spec_bytes() + name
}

/// The path of the control file `name` of line `pin`.
pub open spec fn line_path(pin: usize, name: Seq<u8>) -> Seq<u8> {
    GPIO_ROOT.spec_bytes() + "gpio".spec_bytes() + decimal_digits(pin as nat) + "/".spec_bytes()
        + name
}

/// Appends the decimal digits of `n` to `out`.
fn push_decimal(out: &mut Vec<u8>, n: usize)
    ensures
        final(out)@ == old(out)@ + decimal_digits(n as nat),
    decreases n,
{
    if n >= 10 {
        push_decimal(out, n / 10);
    }
    let digit: u8 = (n % 10) as u8;
    out.push(0x30 + digit);
    assert(out@ =~= old(out)@ + decimal_digits(n as nat));
}

/// Returns the decimal digits of `n`, in ASCII.
pub fn decimal(n: usize) -> (out: Vec<u8>)
    ensures
        out@ == decimal_digits(n as nat),
{
    let mut out: Vec<u8> = Vec::new();
    push_decimal(&mut out, n);
    assert(out@ =~= decimal_digits(n as nat));
    out
}

/// Appends the bytes of `text` to `out`.
fn push_bytes(out: &mut Vec<u8>, text: &[u8])
    ensures
        final(out)@ == old(out)@ + text@,
{
    out.extend_from_slice(text);
    assert(out@ =~= old(out)@ + text@);
}

/// A request to open a file and keep it open.
#[derive(Debug)]
pub struct FileOpen {
    /// The path of the file.
    pub path: Vec<u8>,
    /// Whether the file is opened for writing too, or for reading only.
    pub writable: bool,
}

/// A request to open a file for reading and writing, write to it, and close it.
#[derive(Debug)]
pub struct FileWrite {
    /// The path of the file.
    pub path: Vec<u8>,
    /// The bytes to write.
    pub data: Vec<u8>,
}

/// The control files of the GPIO subsystem as a whole.
pub struct GPIOSelector;

impl GPIOSelector {
    /// Returns the request to open the control file `name` for reading and writing.
    pub fn open(name: &str) -> (out: FileOpen)
        ensures
            out.path@ == control_path(name.spec_bytes()),
            out.writable,
    {
        let mut path: Vec<u8> = Vec::new();
        push_bytes(&mut path, GPIO_ROOT.as_bytes());
        push_bytes(&mut path, name.as_bytes());
        assert(path@ =~= control_path(name.spec_bytes()));
        FileOpen { path, writable: true }
    }

    /// Returns the request to write `src` into the control file `name`.
    pub fn write(name: &str, src: &[u8]) -> (out: FileWrite)
        ensures
            out.path@ == control_path(name.spec_bytes()),
            out.data@ == src@,
    {
        let target = Self::open(name);
        let mut data: Vec<u8> = Vec::new();
        push_bytes(&mut data, src);
        assert(data@ =~= src@);
        FileWrite { path: target.path, data }
    }
}

/// The control files of one line.
pub struct GPIOPinSelector;

impl GPIOPinSelector {
    fn path(pin: usize, name: &str) -> (out: Vec<u8>)
        ensures
            out@ == line_path(pin, name.spec_bytes()),
    {
        let mut path: Vec<u8> = Vec::new();
        push_bytes(&mut path, GPIO_ROOT.as_bytes());
        push_bytes(&mut path, "gpio".as_bytes());
        push_decimal(&mut path, pin);
        push_bytes(&mut path, "/".as_bytes());
        push_bytes(&mut path, name.as_bytes());
        assert(path@ =~= line_path(pin, name.spec_bytes()));
        path
    }

    /// Returns the request to open the control file `name` of line `pin`
    /// for reading and writing.
    pub fn open(pin: usize, name: &str) -> (out: FileOpen)
        ensures
            out.path@ == line_path(pin, name.spec_bytes()),
            out.writable,
    {
        FileOpen { path: Self::path(pin, name), writable: true }
    }

    /// Returns the request to open the control file `name` of line `pin`
    /// for reading only.
    pub fn open_rd(pin: usize, name: &str) -> (out: FileOpen)
        ensures
            out.path@ == line_path(pin, name.spec_bytes()),
            !out.writable,
    {
        FileOpen { path: Self::path(pin, name), writable: false }
    }

    /// Returns the request to write `src` into the control file `name` of line `pin`.
    pub fn write(pin: usize, name: &str, src: &[u8]) -> (out: FileWrite)
        ensures
            out.path@ == line_path(pin, name.spec_bytes()),
            out.data@ == src@,
    {
        let target = Self::open(pin, name);
        let mut data: Vec<u8> = Vec::new();
        push_bytes(&mut data, src);
        assert(data@ =~= src@);
        FileWrite { path: target.path, data }
    }
}

} // verus!
