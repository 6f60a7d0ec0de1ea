use vstd::prelude::*;
use vstd::slice::slice_subrange;
use vstd::string::StringSliceAdditionalSpecFns;
use super::{CPUInfo, Memory};
use crate::result::Error;
use crate::text::{
    bytes_eq, find, find_in, number_value, parse_number, split, split_at, trim, trimmed, views,
};

verus! {

/// The key and the value that a line of the processor information holds:
/// what stands before its first colon and what stands after it, each
/// without the white space around it. A line without a colon holds nothing.
pub open spec fn entry_of(line: Seq<u8>) -> Option<(Seq<u8>, Seq<u8>)> {
    let colon = find(line, 0x3a);
    if 0 <= colon < line.len() {
        Some((trim(line.take(colon)), trim(line.skip(colon + 1))))
    } else {
        None
    }
}

/// The keys and values that lines hold, in the order of the lines.
pub open spec fn entries_in(lines: Seq<Seq<u8>>) -> Seq<(Seq<u8>, Seq<u8>)>
    decreases lines.len(),
{
    if lines.len() == 0 {
        Seq::empty()
    } else {
        match entry_of(lines.last()) {
            Some(entry) => entries_in(lines.drop_last()).push(entry),
            None => entries_in(lines.drop_last()),
        }
    }
}

/// The keys and values that the processor information holds.
pub open spec fn cpuinfo_entries(text: Seq<u8>) -> Seq<(Seq<u8>, Seq<u8>)> {
    entries_in(split(text, 0x0a))
}

/// Reads the processor information as the kernel writes it: one entry to a
/// line, the key before the first colon and the value after it.
pub fn cpuinfo(text: &[u8]) -> (out: CPUInfo)
    ensures
        out.entries() == cpuinfo_entries(text@),
{
    let lines = split_at(text, 0x0a);
    let mut out = CPUInfo(Vec::new());
    let mut i: usize = 0;
    assert(out.entries() =~= entries_in(views(lines@).take(0)));
    while i < lines.len()
        invariant
            i <= lines.len(),
            views(lines@) == split(text@, 0x0a),
            out.entries() == entries_in(views(lines@).take(i as int)),
        decreases lines.len() - i,
    {
        let line = lines[i].as_slice();
        let ghost done = views(lines@).take(i as int);
        let ghost more = views(lines@).take(i + 1);
        assert(more.drop_last() =~= done);
        assert(more.last() == line@);
        let colon = find_in(line, 0, line.len(), 0x3a);
        assert(line@.subrange(0, line.len() as int) =~= line@);
        if colon < line.len() {
            let key = trimmed(slice_subrange(line, 0, colon));
            let value = trimmed(slice_subrange(line, colon + 1, line.len()));
            assert(line@.subrange(0, colon as int) =~= line@.take(colon as int));
            assert(line@.subrange(colon + 1, line.len() as int) =~= line@.skip(colon + 1));
            let ghost before = out.entries();
            out.0.push((key, value));
            assert(out.entries() =~= before.push((key@, value@)));
        }
        i = i + 1;
    }
    assert(views(lines@).take(i as int) =~= views(lines@));
    out
}

/// The pieces that are not empty, in their order.
pub open spec fn words_in(pieces: Seq<Seq<u8>>) -> Seq<Seq<u8>>
    decreases pieces.len(),
{
    if pieces.len() == 0 {
        Seq::empty()
    } else if pieces.last().len() > 0 {
        words_in(pieces.drop_last()).push(pieces.last())
    } else {
        words_in(pieces.drop_last())
    }
}

/// The words of a line: what stands between its spaces.
pub open spec fn words(line: Seq<u8>) -> Seq<Seq<u8>> {
    words_in(split(line, 0x20))
}

/// The number that a word of the memory report writes in decimal, if it
/// writes one of thirty-two bits.
pub open spec fn field(word: Seq<u8>) -> Option<u32> {
    match number_value(word, 10) {
        Some(value) => if value <= u32::MAX {
            Some(value as u32)
        } else {
            None
        },
        None => None,
    }
}

/// Whether the words are those of the line that reports the memory: the
/// label and six more.
pub open spec fn is_memory_line(line: Seq<Seq<u8>>) -> bool {
    line.len() == 7 && line[0] == "Mem:".spec_bytes()
}

/// The memory that the words of the reporting line tell of, if each of the
/// six after the label writes a number.
pub open spec fn memory_line(line: Seq<Seq<u8>>) -> Option<Memory> {
    match (field(line[1]), field(line[2]), field(line[3]), field(line[4]), field(line[5]), field(
        line[6],
    )) {
        (Some(total), Some(used), Some(free), Some(shared), Some(buffers), Some(cached)) => Some(
            Memory { total, used, free, shared, buffers, cached },
        ),
        _ => None,
    }
}

/// The memory that the first reporting line among the lines tells of.
pub open spec fn memory_in(lines: Seq<Seq<u8>>) -> Option<Memory>
    decreases lines.len(),
{
    if lines.len() == 0 {
        None
    } else if is_memory_line(words(lines[0])) {
        memory_line(words(lines[0]))
    } else {
        memory_in(lines.skip(1))
    }
}

/// The memory that a report tells of.
pub open spec fn memory_of(text: Seq<u8>) -> Option<Memory> {
    memory_in(split(text, 0x0a))
}

fn words_of(line: &[u8]) -> (out: Vec<Vec<u8>>)
    ensures
        views(out@) == words(line@),
{
    let pieces = split_at(line, 0x20);
    let mut out: Vec<Vec<u8>> = Vec::new();
    let mut i: usize = 0;
    assert(views(out@) =~= words_in(views(pieces@).take(0)));
    while i < pieces.len()
        invariant
            i <= pieces.len(),
            views(pieces@) == split(line@, 0x20),
            views(out@) == words_in(views(pieces@).take(i as int)),
        decreases pieces.len() - i,
    {
        let ghost done = views(pieces@).take(i as int);
        let ghost more = views(pieces@).take(i + 1);
        assert(more.drop_last() =~= done);
        assert(more.last() == pieces@[i as int]@);
        if pieces[i].len() > 0 {
            let ghost before = views(out@);
            let piece = crate::text::copy_range(pieces[i].as_slice(), 0, pieces[i].len());
            assert(piece@ =~= pieces@[i as int]@);
            out.push(piece);
            assert(views(out@) =~= before.push(piece@));
        }
        i = i + 1;
    }
    assert(views(pieces@).take(i as int) =~= views(pieces@));
    out
}

fn parse_field(word: &[u8]) -> (out: Option<u32>)
    ensures
        out == field(word@),
{
    match parse_number(word, 10) {
        Some(value) => if value <= u32::MAX as u64 {
            Some(value as u32)
        } else {
            None
        },
        None => None,
    }
}

fn parse_memory_line(line: &Vec<Vec<u8>>) -> (out: Option<Memory>)
    requires
        line@.len() == 7,
    ensures
        out == memory_line(views(line@)),
{
    let total = parse_field(line[1].as_slice());
    let used = parse_field(line[2].as_slice());
    let free = parse_field(line[3].as_slice());
    let shared = parse_field(line[4].as_slice());
    let buffers = parse_field(line[5].as_slice());
    let cached = parse_field(line[6].as_slice());
    match (total, used, free, shared, buffers, cached) {
        (Some(total), Some(used), Some(free), Some(shared), Some(buffers), Some(cached)) => Some(
            Memory { total, used, free, shared, buffers, cached },
        ),
        _ => None,
    }
}

/// Reads the report of the `free` tool: the first line whose words are the
/// label `Mem:` and six more tells the memory. A report without such a
/// line, or with one whose words are not all numbers, is not understood.
pub fn memory(text: &[u8]) -> (out: Result<Memory, Error>)
    ensures
        match memory_of(text@) {
            Some(report) => out == Ok::<Memory, Error>(report),
            None => out matches Err(Error::UnexpectedError),
        },
{
    let lines = split_at(text, 0x0a);
    let mut i: usize = 0;
    assert(views(lines@).skip(0) =~= views(lines@));
    while i < lines.len()
        invariant
            i <= lines.len(),
            views(lines@) == split(text@, 0x0a),
            memory_of(text@) == memory_in(views(lines@).skip(i as int)),
        decreases lines.len() - i,
    {
        let ghost rest = views(lines@).skip(i as int);
        assert(rest[0] == lines@[i as int]@);
        assert(rest.skip(1) =~= views(lines@).skip(i + 1));
        let line = words_of(lines[i].as_slice());
        if line.len() == 7 && bytes_eq(line[0].as_slice(), "Mem:".as_bytes()) {
            return match parse_memory_line(&line) {
                Some(report) => Ok(report),
                None => Err(Error::UnexpectedError),
            };
        }
        i = i + 1;
    }
    Err(Error::UnexpectedError)
}

} // verus!
