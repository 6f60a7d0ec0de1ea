use cupi::time::{spin_deadline, spin_over, Delay};
use cupi::{delay_hard, delay_ms, delay_usec};

#[test]
fn test_delay_hard() {
    delay_hard(50); // pause 50 microseconds
}

#[test]
fn test_delay_usec() {
    delay_usec(150); // pause 150 microseconds
}

#[test]
fn test_delay_ms() {
    delay_ms(1); // pause 1 millisecond
}

#[test]
fn hard_delay_always_spins() {
    assert_eq!(delay_hard(50), Delay::Spin { usec: 50 });
    assert_eq!(delay_hard(0), Delay::Spin { usec: 0 });
    assert_eq!(delay_hard(1_000_000), Delay::Spin { usec: 1_000_000 });
}

#[test]
fn microsecond_delay_chooses_how_to_wait() {
    assert_eq!(delay_usec(0), Delay::Nothing);
    assert_eq!(delay_usec(1), Delay::Spin { usec: 1 });
    assert_eq!(delay_usec(5), Delay::Spin { usec: 5 });
    assert_eq!(delay_usec(99), Delay::Spin { usec: 99 });
    assert_eq!(delay_usec(100), Delay::Sleep { secs: 0, nanos: 100_000 });
    assert_eq!(delay_usec(150), Delay::Sleep { secs: 0, nanos: 150_000 });
    assert_eq!(delay_usec(2_500_001), Delay::Sleep { secs: 2, nanos: 500_001_000 });
    assert_eq!(
        delay_usec(u64::MAX),
        Delay::Sleep { secs: 18_446_744_073_709, nanos: 551_615_000 }
    );
}

#[test]
fn millisecond_delay_sleeps() {
    assert_eq!(delay_ms(0), Delay::Sleep { secs: 0, nanos: 0 });
    assert_eq!(delay_ms(1), Delay::Sleep { secs: 0, nanos: 1_000_000 });
    assert_eq!(delay_ms(600), Delay::Sleep { secs: 0, nanos: 600_000_000 });
    assert_eq!(delay_ms(15_000), Delay::Sleep { secs: 15, nanos: 0 });
    assert_eq!(delay_ms(1_999), Delay::Sleep { secs: 1, nanos: 999_000_000 });
}

#[test]
fn spin_ends_at_its_deadline() {
    let deadline = spin_deadline(1_000, 5);
    assert_eq!(deadline, 1_005);
    assert!(!spin_over(1_000, deadline));
    assert!(!spin_over(1_004, deadline));
    assert!(spin_over(1_005, deadline));
    assert!(spin_over(2_000, deadline));
    assert_eq!(spin_deadline(u64::MAX - 1, 5), u64::MAX);
    assert_eq!(spin_deadline(7, 0), 7);
    assert!(spin_over(7, 7));
}
