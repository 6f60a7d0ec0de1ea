use vstd::prelude::*;

verus! {

/// Tells whether two byte strings are equal.
pub fn bytes_eq(left: &[u8], right: &[u8]) -> (out: bool)
    ensures
        out == (left@ == right@),
{
    if left.len() != right.len() {
        return false;
    }
    let mut i: usize = 0;
    while i < left.len()
        invariant
            i <= left.len(),
            left.len() == right.len(),
            forall|k: int| 0 <= k < i ==> left@[k] == right@[k],
        decreases left.len() - i,
    {
        if left[i] != right[i] {
            return false;
        }
        i = i + 1;
    }
    assert(left@ =~= right@);
    true
}

/// Returns a copy of the bytes from `from` up to, but without, `to`.
pub fn copy_range(text: &[u8], from: usize, to: usize) -> (out: Vec<u8>)
    requires
        from <= to <= text.len(),
    ensures
        out@ == text@.subrange(from as int, to as int),
{
    let mut out: Vec<u8> = Vec::new();
    let mut i: usize = from;
    while i < to
        invariant
            from <= i <= to <= text.len(),
            out@ == text@.subrange(from as int, i as int),
        decreases to - i,
    {
        out.push(text[i]);
        i = i + 1;
        assert(out@ =~= text@.subrange(from as int, i as int));
    }
    out
}

/// The index of the first occurrence of `byte` in `text`, or the length of
/// the text where it does not occur.
pub open spec fn find(text: Seq<u8>, byte: u8) -> int
    decreases text.len(),
{
    if text.len() == 0 {
        0
    } else if text[0] == byte {
        0
    } else {
        1 + find(text.skip(1), byte)
    }
}

/// Whether `index` is where `byte` first occurs in `text`, or the length
/// of the text where it does not occur.
pub open spec fn is_first(text: Seq<u8>, byte: u8, index: int) -> bool {
    &&& 0 <= index <= text.len()
    &&& index < text.len() ==> text[index] == byte
    &&& forall|j: int| 0 <= j < index ==> text[j] != byte
}

/// `find` returns the first occurrence.
pub proof fn lemma_find(text: Seq<u8>, byte: u8)
    ensures
        is_first(text, byte, find(text, byte)),
    decreases text.len(),
{
    if text.len() > 0 && text[0] != byte {
        let rest = text.skip(1);
        lemma_find(rest, byte);
        let index = find(rest, byte);
        assert forall|j: int| 0 <= j < index + 1 implies text[j] != byte by {
            if j > 0 {
                assert(text[j] == rest[j - 1]);
            }
        }
        if index < rest.len() {
            assert(text[index + 1] == rest[index]);
        }
    }
}

/// There is one first occurrence only.
pub proof fn lemma_find_unique(text: Seq<u8>, byte: u8, index: int)
    requires
        is_first(text, byte, index),
    ensures
        find(text, byte) == index,
{
    lemma_find(text, byte);
    let found = find(text, byte);
    if found < index {
        assert(text[found] != byte);
    } else if index < found {
        assert(text[index] != byte);
    }
}

/// Returns the index of the first occurrence of `byte` between `from` and
/// `to`, or `to` where it does not occur there.
pub fn find_in(text: &[u8], from: usize, to: usize, byte: u8) -> (out: usize)
    requires
        from <= to <= text.len(),
    ensures
        from <= out <= to,
        out - from == find(text@.subrange(from as int, to as int), byte),
{
    let mut i: usize = from;
    while i < to && text[i] != byte
        invariant
            from <= i <= to <= text.len(),
            forall|j: int| from <= j < i ==> text@[j] != byte,
        decreases to - i,
    {
        i = i + 1;
    }
    proof {
        lemma_find_unique(text@.subrange(from as int, to as int), byte, i - from);
    }
    i
}

/// The pieces that `text` falls into where it is cut at every occurrence of
/// `separator`. There is always at least one piece, and a piece may be empty.
pub open spec fn split(text: Seq<u8>, separator: u8) -> Seq<Seq<u8>>
    decreases text.len(),
{
    let end = find(text, separator);
    if 0 <= end < text.len() {
        seq![text.take(end)] + split(text.skip(end + 1), separator)
    } else {
        seq![text]
    }
}

/// The byte strings that a vector of vectors holds.
pub open spec fn views(pieces: Seq<Vec<u8>>) -> Seq<Seq<u8>> {
    Seq::new(pieces.len(), |i: int| pieces[i]@)
}

/// Returns the pieces that `text` falls into where it is cut at every
/// occurrence of `separator`.
pub fn split_at(text: &[u8], separator: u8) -> (out: Vec<Vec<u8>>)
    ensures
        views(out@) == split(text@, separator),
{
    let mut out: Vec<Vec<u8>> = Vec::new();
    let mut start: usize = 0;
    let length = text.len();
    assert(text@.skip(0) =~= text@);
    assert(views(out@) =~= Seq::<Seq<u8>>::empty());
    loop
        invariant_except_break
            split(text@, separator) == views(out@) + split(text@.skip(start as int), separator),
        invariant
            start <= length == text.len(),
        ensures
            views(out@) == split(text@, separator),
        decreases length - start,
    {
        let ghost rest = text@.skip(start as int);
        let ghost before = views(out@);
        assert(text@.subrange(start as int, length as int) =~= rest);
        let end = find_in(text, start, length, separator);
        let piece = copy_range(text, start, end);
        out.push(piece);
        assert(text@.subrange(start as int, end as int) =~= rest.take(end - start));
        assert(views(out@) =~= before.push(rest.take(end - start)));
        if end >= length {
            assert(rest.take(end - start) =~= rest);
            assert(before + seq![rest] =~= before.push(rest));
            break ;
        }
        assert(rest.skip(end - start + 1) =~= text@.skip(end + 1));
        assert(before + (seq![rest.take(end - start)] + split(
            text@.skip(end + 1),
            separator,
        )) =~= before.push(rest.take(end - start)) + split(text@.skip(end + 1), separator));
        start = end + 1;
    }
    out
}

/// Whether a byte is ASCII white space.
pub open spec fn is_space(byte: u8) -> bool {
    byte == 0x20 || (0x09 <= byte <= 0x0d)
}

/// A text without the white space that it starts with.
pub open spec fn trim_start(text: Seq<u8>) -> Seq<u8>
    decreases text.len(),
{
    if text.len() > 0 && is_space(text[0]) {
        trim_start(text.skip(1))
    } else {
        text
    }
}

/// A text without the white space that it ends with.
pub open spec fn trim_end(text: Seq<u8>) -> Seq<u8>
    decreases text.len(),
{
    if text.len() > 0 && is_space(text.last()) {
        trim_end(text.drop_last())
    } else {
        text
    }
}

/// A text without the white space around it.
pub open spec fn trim(text: Seq<u8>) -> Seq<u8> {
    trim_end(trim_start(text))
}

fn space(byte: u8) -> (out: bool)
    ensures
        out == is_space(byte),
{
    byte == 0x20 || (0x09 <= byte && byte <= 0x0d)
}

/// Returns a copy of `text` without the ASCII white space around it.
pub fn trimmed(text: &[u8]) -> (out: Vec<u8>)
    ensures
        out@ == trim(text@),
{
    let mut from: usize = 0;
    let mut to: usize = text.len();
    assert(text@.subrange(0, to as int) =~= text@);
    while from < to && space(text[from])
        invariant
            from <= to == text.len(),
            trim_start(text@) == trim_start(text@.subrange(from as int, to as int)),
        decreases to - from,
    {
        assert(text@.subrange(from as int, to as int).skip(1) =~= text@.subrange(
            from + 1,
            to as int,
        ));
        from = from + 1;
    }
    assert(trim_start(text@) == text@.subrange(from as int, to as int));
    while from < to && space(text[to - 1])
        invariant
            from <= to <= text.len(),
            trim(text@) == trim_end(text@.subrange(from as int, to as int)),
        decreases to - from,
    {
        assert(text@.subrange(from as int, to as int).drop_last() =~= text@.subrange(
            from as int,
            to - 1,
        ));
        to = to - 1;
    }
    copy_range(text, from, to)
}

/// The value of a digit in a radix of up to thirty-six: the decimal digits,
/// then the letters, in either case.
pub open spec fn digit_value(byte: u8, radix: u64) -> Option<int> {
    let value = if 0x30 <= byte <= 0x39 {
        byte - 0x30
    } else if 0x61 <= byte <= 0x7a {
        byte - 0x61 + 10
    } else if 0x41 <= byte <= 0x5a {
        byte - 0x41 + 10
    } else {
        36
    };
    if value < radix {
        Some(value)
    } else {
        None
    }
}

/// The number that a run of digits writes, if all of them are digits of the radix.
pub open spec fn digits_value(digits: Seq<u8>, radix: u64) -> Option<int>
    decreases digits.len(),
{
    if digits.len() == 0 {
        Some(0)
    } else {
        match (digits_value(digits.drop_last(), radix), digit_value(digits.last(), radix)) {
            (Some(high), Some(low)) => Some(high * radix + low),
            _ => None,
        }
    }
}

/// The number that a run of digits writes, if there is at least one, all
/// of them are digits of the radix, and the number fits sixty-four bits.
pub open spec fn unsigned_value(digits: Seq<u8>, radix: u64) -> Option<u64> {
    if digits.len() == 0 {
        None
    } else {
        match digits_value(digits, radix) {
            Some(value) => if value <= u64::MAX {
                Some(value as u64)
            } else {
                None
            },
            None => None,
        }
    }
}

/// The number that a text writes: an optional plus sign and then at least
/// one digit of the radix, with a value that fits sixty-four bits.
pub open spec fn number_value(text: Seq<u8>, radix: u64) -> Option<u64> {
    if text.len() > 0 && text[0] == 0x2b {
        unsigned_value(text.skip(1), radix)
    } else {
        unsigned_value(text, radix)
    }
}

/// A run of digits writes no smaller a number than any run it starts with,
/// and is made of digits only if that run is.
proof fn lemma_digits_prefix(digits: Seq<u8>, radix: u64, length: int)
    requires
        0 <= length <= digits.len(),
        radix >= 1,
    ensures
        digits_value(digits, radix) matches Some(value) ==> (digits_value(
            digits.take(length),
            radix,
        ) matches Some(part) && 0 <= part <= value),
    decreases digits.len(),
{
    if length == digits.len() {
        assert(digits.take(length) =~= digits);
        lemma_digits_prefix_zero(digits, radix);
    } else {
        lemma_digits_prefix(digits.drop_last(), radix, length);
        assert(digits.drop_last().take(length) =~= digits.take(length));
        if let (Some(high), Some(low)) = (
            digits_value(digits.drop_last(), radix),
            digit_value(digits.last(), radix),
        ) {
            lemma_digits_prefix_zero(digits.drop_last(), radix);
            assert(high * radix >= high) by (nonlinear_arith)
                requires
                    high >= 0,
                    radix >= 1,
            ;
        }
    }
}

/// A run of digits writes no negative number.
proof fn lemma_digits_prefix_zero(digits: Seq<u8>, radix: u64)
    ensures
        digits_value(digits, radix) matches Some(value) ==> value >= 0,
    decreases digits.len(),
{
    if digits.len() > 0 {
        lemma_digits_prefix_zero(digits.drop_last(), radix);
        if let (Some(high), Some(low)) = (
            digits_value(digits.drop_last(), radix),
            digit_value(digits.last(), radix),
        ) {
            assert(high * radix >= 0) by (nonlinear_arith)
                requires
                    high >= 0,
                    radix >= 0,
            ;
        }
    }
}

fn digit(byte: u8, radix: u64) -> (out: Option<u64>)
    ensures
        match digit_value(byte, radix) {
            Some(value) => out == Some(value as u64) && value < radix,
            None => out is None,
        },
{
    let value: u64 = if 0x30 <= byte && byte <= 0x39 {
        (byte - 0x30) as u64
    } else if 0x61 <= byte && byte <= 0x7a {
        (byte - 0x61 + 10) as u64
    } else if 0x41 <= byte && byte <= 0x5a {
        (byte - 0x41 + 10) as u64
    } else {
        36
    };
    if value < radix {
        Some(value)
    } else {
        None
    }
}

/// Returns the number that the text writes in the radix, if it writes one
/// that fits sixty-four bits.
pub fn parse_number(text: &[u8], radix: u64) -> (out: Option<u64>)
    requires
        2 <= radix <= 36,
    ensures
        out == number_value(text@, radix),
{
    let start: usize = if text.len() > 0 && text[0] == 0x2b {
        1
    } else {
        0
    };
    let ghost digits = text@.skip(start as int);
    if start == text.len() {
        return None;
    }
    let mut value: u64 = 0;
    let mut i: usize = start;
    assert(digits.take(0) =~= Seq::<u8>::empty());
    assert(text@.skip(0) =~= text@);
    while i < text.len()
        invariant
            start <= i <= text.len(),
            2 <= radix <= 36,
            digits.len() == text.len() - start,
            forall|k: int| 0 <= k < digits.len() ==> digits[k] == text@[start + k],
            number_value(text@, radix) == unsigned_value(digits, radix),
            digits_value(digits.take(i - start), radix) == Some(value as int),
        decreases text.len() - i,
    {
        let ghost done = digits.take(i - start);
        let ghost more = digits.take(i + 1 - start);
        assert(more.drop_last() =~= done);
        assert(more.last() == text@[i as int]);
        proof {
            lemma_digits_prefix(digits, radix, i + 1 - start);
        }
        let low = match digit(text[i], radix) {
            Some(low) => low,
            None => {
                return None;
            },
        };
        let shifted = match value.checked_mul(radix) {
            Some(shifted) => shifted,
            None => {
                return None;
            },
        };
        value = match shifted.checked_add(low) {
            Some(sum) => sum,
            None => {
                return None;
            },
        };
        i = i + 1;
    }
    assert(digits.take(i - start) =~= digits);
    Some(value)
}

} // verus!
