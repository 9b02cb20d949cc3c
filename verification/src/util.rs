//! Loading a program image from hex text.
//!
//! The text holds one region per line: a hexadecimal offset, a colon, and
//! hexadecimal bytes separated by blanks, as in `1000: A9 01 8D 00 02`. The
//! bytes go to consecutive addresses from the offset on.

use vstd::prelude::*;
use crate::cpu::Cpu;
use crate::memory::Memory;
use crate::state::wrap16;

verus! {

/// What is wrong with a line of hex text.
#[derive(Clone, Copy, Debug, PartialEq, Eq, Structural)]
pub enum HexErrorKind {
    /// What stands before the colon, or the whole line where there is no
    /// colon, is no hexadecimal number that fits sixteen bits.
    InvalidOffset,
    /// The line has an offset but no colon after it.
    MissingData,
    /// A word after the colon is no hexadecimal number that fits eight bits.
    InvalidByte,
}

/// The first fault in a hex text: the line it is in, counted from zero, and
/// its kind.
#[derive(Clone, Copy, Debug, PartialEq, Eq, Structural)]
pub struct HexError {
    pub line: usize,
    pub kind: HexErrorKind,
}

/// Whether `b` separates words: a space, or one of the control characters
/// from tab to carriage return.
pub open spec fn is_blank(b: u8) -> bool {
    b == 0x20 || (0x09 <= b <= 0x0D)
}

/// Whether `b` is a hexadecimal digit, in either case.
pub open spec fn is_digit(b: u8) -> bool {
    (0x30 <= b <= 0x39) || (0x41 <= b <= 0x46) || (0x61 <= b <= 0x66)
}

/// The value of the hexadecimal digit `b`.
pub open spec fn digit(b: u8) -> nat {
    if 0x30 <= b <= 0x39 {
        (b - 0x30) as nat
    } else if 0x41 <= b <= 0x46 {
        (b - 0x41 + 10) as nat
    } else {
        (b - 0x61 + 10) as nat
    }
}

/// The first position in `from..to` at which `s` holds `b`, or `to` where
/// there is none.
pub open spec fn find(s: Seq<u8>, b: u8, from: int, to: int) -> int
    decreases to - from,
{
    if from >= to {
        to
    } else if s[from] == b {
        from
    } else {
        find(s, b, from + 1, to)
    }
}

/// The first position in `from..to` at which `s` holds a blank, or `to`
/// where there is none.
pub open spec fn word_end(s: Seq<u8>, from: int, to: int) -> int
    decreases to - from,
{
    if from >= to {
        to
    } else if is_blank(s[from]) {
        from
    } else {
        word_end(s, from + 1, to)
    }
}

/// The number that the hexadecimal digits at `from..to` of `s` spell.
pub open spec fn digits_value(s: Seq<u8>, from: int, to: int) -> nat
    decreases to - from,
{
    if from >= to {
        0
    } else {
        digits_value(s, from, to - 1) * 16 + digit(s[to - 1])
    }
}

/// The number written at `from..to` of `s`: one or more hexadecimal digits,
/// with or without a plus sign before them, that spell at most `max`.
pub open spec fn number(s: Seq<u8>, from: int, to: int, max: nat) -> Option<nat> {
    let start = if from < to && s[from] == 0x2B {
        from + 1
    } else {
        from
    };
    if start < to && (forall|k: int| start <= k < to ==> is_digit(#[trigger] s[k]))
        && digits_value(s, start, to) <= max {
        Some(digits_value(s, start, to))
    } else {
        None
    }
}

/// The writes that the words at `from..to` of `s` ask for: each word is a
/// byte, and the bytes go to consecutive addresses from `address` on,
/// wrapping within sixteen bits. `None` where a word is no byte.
pub open spec fn data_writes(s: Seq<u8>, from: int, to: int, address: u16) -> Option<
    Seq<(u16, u8)>,
>
    decreases to - from,
{
    if from >= to {
        Some(Seq::empty())
    } else if is_blank(s[from]) {
        data_writes(s, from + 1, to, address)
    } else {
        let end = word_end(s, from + 1, to);
        proof {
            lemma_word_end_bounds(s, from + 1, to);
        }
        match number(s, from, end, 0xFF) {
            None => None,
            Some(byte) => match data_writes(s, end, to, wrap16(address + 1)) {
                None => None,
                Some(rest) => Some(seq![(address, byte as u8)] + rest),
            },
        }
    }
}

/// The writes that the line at `from..to` of `s` asks for. The offset is
/// what stands before the first colon; the data is what stands between that
/// colon and the next, or the end of the line.
pub open spec fn line_writes(s: Seq<u8>, from: int, to: int) -> Result<
    Seq<(u16, u8)>,
    HexErrorKind,
> {
    let colon = find(s, 0x3A, from, to);
    match number(s, from, colon, 0xFFFF) {
        None => Err(HexErrorKind::InvalidOffset),
        Some(offset) => if colon >= to {
            Err(HexErrorKind::MissingData)
        } else {
            match data_writes(s, colon + 1, find(s, 0x3A, colon + 1, to), offset as u16) {
                None => Err(HexErrorKind::InvalidByte),
                Some(writes) => Ok(writes),
            }
        },
    }
}

/// The writes that the lines of `s` from position `from` on ask for, in
/// order, where the line at `from` has number `line`; or the first fault.
/// Lines end at a line feed; a last line need not have one.
pub open spec fn text_writes(s: Seq<u8>, from: int, line: int) -> Result<Seq<(u16, u8)>, HexError>
    decreases s.len() + 1 - from,
{
    if from >= s.len() {
        Ok(Seq::empty())
    } else {
        let end = find(s, 0x0A, from, s.len() as int);
        proof {
            lemma_find_bounds(s, 0x0A, from, s.len() as int);
        }
        match line_writes(s, from, end) {
            Err(kind) => Err(HexError { line: line as usize, kind: kind }),
            Ok(writes) => match text_writes(s, end + 1, line + 1) {
                Err(e) => Err(e),
                Ok(more) => Ok(writes + more),
            },
        }
    }
}

/// `find` answers within the range it searched, and nothing before its
/// answer is the byte sought.
pub proof fn lemma_find_bounds(s: Seq<u8>, b: u8, from: int, to: int)
    requires
        from <= to,
    ensures
        from <= find(s, b, from, to) <= to,
        find(s, b, from, to) < to ==> s[find(s, b, from, to)] == b,
        forall|k: int| from <= k < find(s, b, from, to) ==> s[k] != b,
    decreases to - from,
{
    if from < to && s[from] != b {
        lemma_find_bounds(s, b, from + 1, to);
    }
}

/// `word_end` answers within the range it searched, and nothing before its
/// answer is a blank.
pub proof fn lemma_word_end_bounds(s: Seq<u8>, from: int, to: int)
    requires
        from <= to,
    ensures
        from <= word_end(s, from, to) <= to,
        word_end(s, from, to) < to ==> is_blank(s[word_end(s, from, to)]),
        forall|k: int| from <= k < word_end(s, from, to) ==> !is_blank(s[k]),
    decreases to - from,
{
    if from < to && !is_blank(s[from]) {
        lemma_word_end_bounds(s, from + 1, to);
    }
}

/// More digits never spell a smaller number.
pub proof fn lemma_digits_value_grows(s: Seq<u8>, from: int, mid: int, to: int)
    requires
        from <= mid <= to,
    ensures
        digits_value(s, from, mid) <= digits_value(s, from, to),
    decreases to - mid,
{
    if mid < to {
        lemma_digits_value_grows(s, from, mid, to - 1);
    }
}

/// `done` followed by what is still to come, where that is known.
pub open spec fn followed_by(done: Seq<(u16, u8)>, rest: Option<Seq<(u16, u8)>>) -> Option<
    Seq<(u16, u8)>,
> {
    match rest {
        Some(more) => Some(done + more),
        None => None,
    }
}

/// Whether `b` separates words.
fn blank(b: u8) -> (r: bool)
    ensures
        r == is_blank(b),
{
    b == 0x20 || (0x09 <= b && b <= 0x0D)
}

/// The value of `b` as a hexadecimal digit, if it is one.
fn digit_of(b: u8) -> (r: Option<u8>)
    ensures
        r is Some == is_digit(b),
        r matches Some(d) ==> d == digit(b),
{
    if 0x30 <= b && b <= 0x39 {
        Some(b - 0x30)
    } else if 0x41 <= b && b <= 0x46 {
        Some(b - 0x41 + 10)
    } else if 0x61 <= b && b <= 0x66 {
        Some(b - 0x61 + 10)
    } else {
        None
    }
}

/// Finds the first `b` in `from..to` of `text`.
fn find_byte(text: &[u8], b: u8, from: usize, to: usize) -> (at: usize)
    requires
        from <= to <= text.len(),
    ensures
        at == find(text@, b, from as int, to as int),
        from <= at <= to,
{
    let mut k: usize = from;
    while k < to && text[k] != b
        invariant
            from <= k <= to <= text.len(),
            find(text@, b, from as int, to as int) == find(text@, b, k as int, to as int),
        decreases to - k,
    {
        k += 1;
    }
    k
}

/// Finds the first blank in `from..to` of `text`.
fn find_blank(text: &[u8], from: usize, to: usize) -> (at: usize)
    requires
        from <= to <= text.len(),
    ensures
        at == word_end(text@, from as int, to as int),
        from <= at <= to,
{
    let mut k: usize = from;
    while k < to && !blank(text[k])
        invariant
            from <= k <= to <= text.len(),
            word_end(text@, from as int, to as int) == word_end(text@, k as int, to as int),
        decreases to - k,
    {
        k += 1;
    }
    k
}

/// Reads the number written at `from..to` of `text`, if it is one and at
/// most `max`.
fn parse_number(text: &[u8], from: usize, to: usize, max: u32) -> (r: Option<u32>)
    requires
        from <= to <= text.len(),
        max <= 0xFFFF,
    ensures
        r is Some == number(text@, from as int, to as int, max as nat) is Some,
        r matches Some(v) ==> number(text@, from as int, to as int, max as nat) == Some(v as nat),
{
    let start: usize = if from < to && text[from] == 0x2B { from + 1 } else { from };
    if start >= to {
        return None;
    }
    let mut acc: u32 = 0;
    let mut k: usize = start;
    while k < to
        invariant
            from <= start <= k <= to <= text.len(),
            start == (if from < to && text@[from as int] == 0x2B { from + 1 } else { from as int }),
            start < to,
            max <= 0xFFFF,
            acc <= max,
            acc == digits_value(text@, start as int, k as int),
            forall|j: int| start <= j < k ==> is_digit(#[trigger] text@[j]),
        decreases to - k,
    {
        match digit_of(text[k]) {
            None => {
                assert(!is_digit(text@[k as int]));
                return None;
            },
            Some(d) => {
                acc = acc * 16 + d as u32;
                assert(acc == digits_value(text@, start as int, k as int + 1));
                if acc > max {
                    proof {
                        lemma_digits_value_grows(text@, start as int, k as int + 1, to as int);
                    }
                    return None;
                }
            },
        }
        k += 1;
    }
    Some(acc)
}

/// Reads the words at `from..to` of `text` as bytes for consecutive
/// addresses from `address` on, and appends the writes to `writes`. Tells
/// whether every word was a byte.
fn parse_data(text: &[u8], from: usize, to: usize, address: u16, writes: &mut Vec<(u16, u8)>) -> (ok:
    bool)
    requires
        from <= to <= text.len(),
    ensures
        ok == data_writes(text@, from as int, to as int, address) is Some,
        ok ==> final(writes)@ == old(writes)@ + data_writes(
            text@,
            from as int,
            to as int,
            address,
        )->0,
{
    let mut k: usize = from;
    let mut at: u16 = address;
    let ghost done: Seq<(u16, u8)> = Seq::empty();
    assert(writes@ =~= old(writes)@ + done);
    assert(forall|rest: Seq<(u16, u8)>| #[trigger] (done + rest) =~= rest);
    while k < to
        invariant
            from <= k <= to <= text.len(),
            writes@ == old(writes)@ + done,
            data_writes(text@, from as int, to as int, address) == followed_by(
                done,
                data_writes(text@, k as int, to as int, at),
            ),
        decreases to - k,
    {
        if blank(text[k]) {
            k += 1;
        } else {
            let end: usize = find_blank(text, k + 1, to);
            match parse_number(text, k, end, 0xFF) {
                None => {
                    return false;
                },
                Some(v) => {
                    let byte: u8 = v as u8;
                    let next: u16 = if at == 0xFFFF { 0 } else { at + 1 };
                    proof {
                        let rest = data_writes(text@, end as int, to as int, next);
                        if rest is Some {
                            assert(done + (seq![(at, byte)] + rest->0) =~= done.push((at, byte))
                                + rest->0);
                        }
                        assert(writes@.push((at, byte)) =~= old(writes)@ + done.push((at, byte)));
                        done = done.push((at, byte));
                    }
                    writes.push((at, byte));
                    at = next;
                    k = end;
                },
            }
        }
    }
    proof {
        assert(done + Seq::<(u16, u8)>::empty() =~= done);
    }
    true
}

/// Reads the line at `from..to` of `text` and appends its writes to
/// `writes`.
fn parse_line(text: &[u8], from: usize, to: usize, writes: &mut Vec<(u16, u8)>) -> (r: Result<
    (),
    HexErrorKind,
>)
    requires
        from <= to <= text.len(),
    ensures
        r matches Err(kind) ==> line_writes(text@, from as int, to as int) == Err::<
            Seq<(u16, u8)>,
            HexErrorKind,
        >(kind),
        r is Ok ==> line_writes(text@, from as int, to as int) is Ok && final(writes)@ == old(
            writes,
        )@ + line_writes(text@, from as int, to as int)->Ok_0,
{
    let colon: usize = find_byte(text, 0x3A, from, to);
    match parse_number(text, from, colon, 0xFFFF) {
        None => Err(HexErrorKind::InvalidOffset),
        Some(offset) => {
            if colon >= to {
                Err(HexErrorKind::MissingData)
            } else {
                let stop: usize = find_byte(text, 0x3A, colon + 1, to);
                if parse_data(text, colon + 1, stop, offset as u16, writes) {
                    Ok(())
                } else {
                    Err(HexErrorKind::InvalidByte)
                }
            }
        },
    }
}

/// Reads hex text into the writes it asks for, in order, or finds its
/// first fault.
pub fn parse_hex(text: &[u8]) -> (r: Result<Vec<(u16, u8)>, HexError>)
    ensures
        r matches Ok(writes) ==> text_writes(text@, 0, 0) == Ok::<Seq<(u16, u8)>, HexError>(
            writes@,
        ),
        r matches Err(e) ==> text_writes(text@, 0, 0) == Err::<Seq<(u16, u8)>, HexError>(e),
{
    let mut writes: Vec<(u16, u8)> = Vec::new();
    let mut from: usize = 0;
    let mut line: usize = 0;
    assert(forall|rest: Seq<(u16, u8)>| #[trigger] (writes@ + rest) =~= rest);
    while from < text.len()
        invariant
            line <= from <= text.len(),
            text_writes(text@, from as int, line as int) matches Ok(more) ==> text_writes(
                text@,
                0,
                0,
            ) == Ok::<Seq<(u16, u8)>, HexError>(writes@ + more),
            text_writes(text@, from as int, line as int) matches Err(e) ==> text_writes(
                text@,
                0,
                0,
            ) == Err::<Seq<(u16, u8)>, HexError>(e),
        decreases text.len() - from,
    {
        let end: usize = find_byte(text, 0x0A, from, text.len());
        let ghost before = writes@;
        match parse_line(text, from, end, &mut writes) {
            Err(kind) => {
                return Err(HexError { line: line, kind: kind });
            },
            Ok(()) => {
                proof {
                    let these = line_writes(text@, from as int, end as int)->Ok_0;
                    let rest = text_writes(text@, end as int + 1, line as int + 1);
                    if rest is Ok {
                        assert(before + (these + rest->Ok_0) =~= (before + these) + rest->Ok_0);
                    }
                }
                if end == text.len() {
                    proof {
                        assert(writes@ + Seq::<(u16, u8)>::empty() =~= writes@);
                    }
                    return Ok(writes);
                }
                from = end + 1;
                line = line + 1;
            },
        }
    }
    proof {
        assert(writes@ + Seq::<(u16, u8)>::empty() =~= writes@);
    }
    Ok(writes)
}

/// Loads the program image that hex text `text` describes: every byte of
/// every line is written over the bus, in order. A text with a fault is
/// reported and nothing is written.
pub fn load_hex(cpu: &mut Cpu, text: &[u8]) -> (r: Result<(), HexError>)
    ensures
        match text_writes(text@, 0, 0) {
            Ok(writes) => r is Ok && final(cpu)@ == old(cpu)@.write_all(writes),
            Err(e) => r == Err::<(), HexError>(e) && final(cpu)@ == old(cpu)@,
        },
{
    match parse_hex(text) {
        Err(e) => Err(e),
        Ok(writes) => {
            let mut k: usize = 0;
            assert(writes@.take(0) =~= Seq::empty());
            while k < writes.len()
                invariant
                    k <= writes.len(),
                    cpu@ == old(cpu)@.write_all(writes@.take(k as int)),
                decreases writes.len() - k,
            {
                let write: (u16, u8) = writes[k];
                proof {
                    let next = writes@.take(k as int + 1);
                    assert(next.drop_last() =~= writes@.take(k as int));
                    assert(next.last() == writes@[k as int]);
                }
                cpu.set(write.0, write.1);
                k += 1;
            }
            assert(writes@.take(writes.len() as int) =~= writes@);
            Ok(())
        },
    }
}

} // verus!
