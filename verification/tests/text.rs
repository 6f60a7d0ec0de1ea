use cupi::text::{bytes_eq, copy_range, find_in, parse_number, split_at, trimmed};

#[test]
fn byte_strings_compare() {
    assert!(bytes_eq(b"", b""));
    assert!(bytes_eq(b"Mem:", b"Mem:"));
    assert!(!bytes_eq(b"Mem:", b"Mem"));
    assert!(!bytes_eq(b"Mem:", b"mem:"));
    assert!(!bytes_eq(b"a", b""));
}

#[test]
fn ranges_are_copied() {
    assert_eq!(copy_range(b"abcdef", 0, 6), b"abcdef");
    assert_eq!(copy_range(b"abcdef", 2, 4), b"cd");
    assert_eq!(copy_range(b"abcdef", 3, 3), b"");
    assert_eq!(copy_range(b"", 0, 0), b"");
}

#[test]
fn first_occurrence() {
    assert_eq!(find_in(b"a:b:c", 0, 5, b':'), 1);
    assert_eq!(find_in(b"a:b:c", 2, 5, b':'), 3);
    assert_eq!(find_in(b"a:b:c", 4, 5, b':'), 5);
    assert_eq!(find_in(b"a:b:c", 0, 1, b':'), 1);
    assert_eq!(find_in(b"a:b:c", 1, 1, b':'), 1);
    assert_eq!(find_in(b"", 0, 0, b':'), 0);
}

#[test]
fn splitting() {
    let pieces = |text: &[u8], separator: u8| -> Vec<Vec<u8>> { split_at(text, separator) };
    assert_eq!(pieces(b"", b'\n'), vec![b"".to_vec()]);
    assert_eq!(pieces(b"a", b'\n'), vec![b"a".to_vec()]);
    assert_eq!(pieces(b"a\nb", b'\n'), vec![b"a".to_vec(), b"b".to_vec()]);
    assert_eq!(pieces(b"a\n", b'\n'), vec![b"a".to_vec(), b"".to_vec()]);
    assert_eq!(pieces(b"\n", b'\n'), vec![b"".to_vec(), b"".to_vec()]);
    assert_eq!(
        pieces(b" x  y ", b' '),
        vec![b"".to_vec(), b"x".to_vec(), b"".to_vec(), b"y".to_vec(), b"".to_vec()]
    );
}

#[test]
fn trimming() {
    assert_eq!(trimmed(b""), b"");
    assert_eq!(trimmed(b"   "), b"");
    assert_eq!(trimmed(b"abc"), b"abc");
    assert_eq!(trimmed(b"  a b \t\r\n"), b"a b");
    assert_eq!(trimmed(b"\x0b\x0cx\x0b\x0c"), b"x");
    assert_eq!(trimmed(b"\x08x\x0e"), b"\x08x\x0e");
}

#[test]
fn numbers() {
    assert_eq!(parse_number(b"0", 10), Some(0));
    assert_eq!(parse_number(b"+17", 10), Some(17));
    assert_eq!(parse_number(b"007", 10), Some(7));
    assert_eq!(parse_number(b"a02082", 16), Some(0xa02082));
    assert_eq!(parse_number(b"A02082", 16), Some(0xa02082));
    assert_eq!(parse_number(b"ffffffffffffffff", 16), Some(u64::MAX));
    assert_eq!(parse_number(b"18446744073709551615", 10), Some(u64::MAX));
    assert_eq!(parse_number(b"zz", 36), Some(35 * 36 + 35));
    assert_eq!(parse_number(b"101", 2), Some(5));
}

#[test]
fn texts_that_write_no_number() {
    assert_eq!(parse_number(b"", 10), None);
    assert_eq!(parse_number(b"+", 10), None);
    assert_eq!(parse_number(b"-1", 10), None);
    assert_eq!(parse_number(b"++1", 10), None);
    assert_eq!(parse_number(b"1+", 10), None);
    assert_eq!(parse_number(b" 1", 10), None);
    assert_eq!(parse_number(b"1_000", 10), None);
    assert_eq!(parse_number(b"12a", 10), None);
    assert_eq!(parse_number(b"g", 16), None);
    assert_eq!(parse_number(b"2", 2), None);
    assert_eq!(parse_number(b"10000000000000000", 16), None);
    assert_eq!(parse_number(b"18446744073709551616", 10), None);
    assert_eq!(parse_number(b"99999999999999999999999999", 10), None);
}

#[test]
fn numbers_agree_with_the_standard_library() {
    for text in ["0", "+5", "42", "4294967295", "4294967296", "x", "", "+", "-0", "00012"] {
        assert_eq!(parse_number(text.as_bytes(), 10), text.parse::<u64>().ok());
    }
    for text in ["0", "+f", "000e", "a02082", "FFFF", "fffffffffffffffff", "0x10", "", "-1"] {
        assert_eq!(parse_number(text.as_bytes(), 16), u64::from_str_radix(text, 16).ok());
    }
}
