use cupi::logic::{is_high_reading, is_low_reading};
use cupi::{DigitalLogic, DigitalRead, DigitalWrite, Error, Logic, Logic3};

#[test]
fn logic_inverse() {
    let low = Logic::Low;
    let high = Logic::High;
    assert_eq!(low.inverse(), high);
    assert_eq!(low, high.inverse());
}

#[test]
fn inverse_twice_is_identity() {
    assert_eq!(Logic::High.inverse().inverse(), Logic::High);
    assert_eq!(Logic::Low.inverse().inverse(), Logic::Low);
    assert_ne!(Logic::High, Logic::Low);
    assert_ne!(Logic::High.inverse(), Logic::High);
}

#[test]
fn level_to_number() {
    let one: usize = Logic::High.into();
    let zero: usize = Logic::Low.into();
    assert_eq!(one, 1);
    assert_eq!(zero, 0);
    assert_eq!(usize::from(Logic::High), 1);
}

#[test]
fn level_digit() {
    assert_eq!(Logic::High.digit(), b'1');
    assert_eq!(Logic::Low.digit(), b'0');
    assert_eq!(Logic::High.as_str(), "1");
    assert_eq!(Logic::Low.as_str(), "0");
}

#[test]
fn number_to_level_never_fails() {
    assert_eq!(0i32.logic_level(), Logic::Low);
    assert_eq!(1i32.logic_level(), Logic::High);
    assert_eq!((-1i32).logic_level(), Logic::High);
    assert_eq!(i32::MIN.logic_level(), Logic::High);
    assert_eq!(0u32.logic_level(), Logic::Low);
    assert_eq!(u32::MAX.logic_level(), Logic::High);
    assert_eq!(0isize.logic_level(), Logic::Low);
    assert_eq!((-7isize).logic_level(), Logic::High);
    assert_eq!(0usize.logic_level(), Logic::Low);
    assert_eq!(2usize.logic_level(), Logic::High);
    assert_eq!(Logic::High.logic_level(), Logic::High);
    assert_eq!(Logic::Low.logic_level(), Logic::Low);
}

#[test]
fn number_and_level_round_trip() {
    for level in [Logic::High, Logic::Low] {
        let number: usize = level.into();
        assert_eq!(number.logic_level(), level);
    }
}

#[test]
fn three_state_levels_differ() {
    assert_ne!(Logic3::High, Logic3::Low);
    assert_ne!(Logic3::High, Logic3::Z);
    assert_ne!(Logic3::Low, Logic3::Z);
}

#[test]
fn reading_helpers() {
    assert!(matches!(is_high_reading(Ok(Logic::High)), Ok(true)));
    assert!(matches!(is_high_reading(Ok(Logic::Low)), Ok(false)));
    assert!(matches!(is_low_reading(Ok(Logic::High)), Ok(false)));
    assert!(matches!(is_low_reading(Ok(Logic::Low)), Ok(true)));
    assert!(matches!(
        is_high_reading(Err(Error::UnexpectedError)),
        Err(Error::UnexpectedError)
    ));
    assert!(matches!(
        is_low_reading(Err(Error::RootRequired)),
        Err(Error::RootRequired)
    ));
}

struct Latch {
    level: Logic,
    writes: usize,
    broken: bool,
}

impl DigitalRead for Latch {
    fn digital_read(&mut self) -> Result<Logic, Error> {
        if self.broken {
            Err(Error::UnexpectedError)
        } else {
            Ok(self.level)
        }
    }
}

impl DigitalWrite for Latch {
    fn digital_write<L: DigitalLogic>(&mut self, level: L) -> Result<(), Error> {
        if self.broken {
            return Err(Error::UnexpectedError);
        }
        self.level = level.logic_level();
        self.writes += 1;
        Ok(())
    }
}

#[test]
fn provided_read_methods_follow_digital_read() {
    let mut latch = Latch { level: Logic::High, writes: 0, broken: false };
    assert!(matches!(latch.get(), Ok(Logic::High)));
    assert!(matches!(latch.is_high(), Ok(true)));
    assert!(matches!(latch.is_low(), Ok(false)));
    latch.level = Logic::Low;
    assert!(matches!(latch.get(), Ok(Logic::Low)));
    assert!(matches!(latch.is_high(), Ok(false)));
    assert!(matches!(latch.is_low(), Ok(true)));
    latch.broken = true;
    assert!(matches!(latch.is_high(), Err(Error::UnexpectedError)));
    assert!(matches!(latch.is_low(), Err(Error::UnexpectedError)));
    assert!(matches!(latch.get(), Err(Error::UnexpectedError)));
}

#[test]
fn provided_write_methods_follow_digital_write() {
    let mut latch = Latch { level: Logic::Low, writes: 0, broken: false };
    latch.high().unwrap();
    assert_eq!(latch.level, Logic::High);
    latch.low().unwrap();
    assert_eq!(latch.level, Logic::Low);
    latch.set(5usize).unwrap();
    assert_eq!(latch.level, Logic::High);
    latch.set(0u32).unwrap();
    assert_eq!(latch.level, Logic::Low);
    assert_eq!(latch.writes, 4);
    latch.broken = true;
    assert!(matches!(latch.high(), Err(Error::UnexpectedError)));
    assert_eq!(latch.writes, 4);
}

#[test]
fn errors_wrap_outside_errors() {
    let io = std::io::Error::new(std::io::ErrorKind::NotFound, "gone");
    assert!(matches!(Error::from(io), Error::Io(_)));
    assert!(matches!(
        Error::from(mmap::MapError::ErrZeroLength),
        Error::Mapping(mmap::MapError::ErrZeroLength)
    ));
    let number = "x".parse::<u32>().unwrap_err();
    assert!(matches!(Error::from(number), Error::UnexpectedError));
    let text = String::from_utf8(vec![0xFF]).unwrap_err();
    assert!(matches!(Error::from(text), Error::UnexpectedError));
    let text = format!("{:?}", Error::AlreadyClaimed);
    assert_eq!(text, "AlreadyClaimed");
}
