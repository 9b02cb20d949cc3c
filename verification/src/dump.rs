//! Text dumps of the processor: the registers on one line, and tables of
//! memory with sixteen cells to a row, all in upper-case hexadecimal.

use vstd::prelude::*;
use vstd::string::StringExecFns;
use crate::cpu::Cpu;
use crate::state::{high_byte, low_byte, State};

verus! {

/// The hexadecimal digit for `n`, in upper case.
pub open spec fn hex_digit(n: int) -> char {
    if n == 0 {
        '0'
    } else if n == 1 {
        '1'
    } else if n == 2 {
        '2'
    } else if n == 3 {
        '3'
    } else if n == 4 {
        '4'
    } else if n == 5 {
        '5'
    } else if n == 6 {
        '6'
    } else if n == 7 {
        '7'
    } else if n == 8 {
        '8'
    } else if n == 9 {
        '9'
    } else if n == 10 {
        'A'
    } else if n == 11 {
        'B'
    } else if n == 12 {
        'C'
    } else if n == 13 {
        'D'
    } else if n == 14 {
        'E'
    } else {
        'F'
    }
}

/// `b` as two hexadecimal digits.
pub open spec fn hex_byte(b: u8) -> Seq<char> {
    seq![hex_digit(b as int / 16), hex_digit(b as int % 16)]
}

/// `w` as four hexadecimal digits.
pub open spec fn hex_word(w: u16) -> Seq<char> {
    hex_byte(high_byte(w)) + hex_byte(low_byte(w))
}

/// The registers on one line.
pub open spec fn registers_text(s: State) -> Seq<char> {
    "A: "@ + hex_byte(s.a) + " X: "@ + hex_byte(s.x) + " Y: "@ + hex_byte(s.y) + " PC: "@
        + hex_word(s.pc) + " SR: "@ + hex_byte(s.sr) + " SP: "@ + hex_byte(s.sp)
}

/// The heads of columns `from..16` of a table: each a digit between two
/// spaces.
pub open spec fn column_heads(from: int) -> Seq<char>
    decreases 16 - from,
{
    if from >= 16 {
        Seq::empty()
    } else {
        seq![' ', hex_digit(from), ' '] + column_heads(from + 1)
    }
}

/// The cells at `from..to` of `data`, each as two digits and a space.
pub open spec fn cells_text(data: Seq<u8>, from: int, to: int) -> Seq<char>
    decreases to - from,
{
    if from >= to {
        Seq::empty()
    } else {
        hex_byte(data[from]) + " "@ + cells_text(data, from + 1, to)
    }
}

/// The row label that follows `row`: sixteen more, unless that would pass
/// the end of the address space.
pub open spec fn next_row(row: u16) -> u16 {
    if row < 0xFFEF {
        (row + 16) as u16
    } else {
        row
    }
}

/// Where the row of `data` that starts at `from` ends: sixteen cells on, or
/// at the end of `data`.
pub open spec fn row_end(data: Seq<u8>, from: int) -> int {
    if from + 16 <= data.len() {
        from + 16
    } else {
        data.len() as int
    }
}

/// The rows of a table for the cells of `data` from `from` on, the first
/// labelled `row`: each row is its label, a colon between spaces, up to
/// sixteen cells, and a line feed.
pub open spec fn rows_text(data: Seq<u8>, from: int, row: u16) -> Seq<char>
    decreases data.len() - from,
{
    if from >= data.len() || from < 0 {
        Seq::empty()
    } else {
        hex_word(row) + " : "@ + cells_text(data, from, row_end(data, from)) + "\n"@ + rows_text(
            data,
            row_end(data, from),
            next_row(row),
        )
    }
}

/// A table of `data` whose first row is labelled `offset`: a line of column
/// heads, then the rows.
pub open spec fn table_text(data: Seq<u8>, offset: u16) -> Seq<char> {
    "       "@ + column_heads(0) + "\n"@ + rows_text(data, 0, offset)
}

/// The full dump: the registers, the zero page and the stack page.
pub open spec fn dump_text(s: State) -> Seq<char> {
    "Registers: \n    "@ + registers_text(s) + "\n"@ + "\nZero Page:\n"@ + table_text(
        s.memory.subrange(0x0000, 0x0100),
        0x0000,
    ) + "\nStack:\n"@ + table_text(s.memory.subrange(0x0100, 0x0200), 0x0100)
}

/// Appends the hexadecimal digit for `n`.
fn put_digit(out: &mut String, n: u8)
    requires
        n < 16,
    ensures
        final(out)@ == old(out)@.push(hex_digit(n as int)),
{
    proof {
        reveal_strlit("0");
        reveal_strlit("1");
        reveal_strlit("2");
        reveal_strlit("3");
        reveal_strlit("4");
        reveal_strlit("5");
        reveal_strlit("6");
        reveal_strlit("7");
        reveal_strlit("8");
        reveal_strlit("9");
        reveal_strlit("A");
        reveal_strlit("B");
        reveal_strlit("C");
        reveal_strlit("D");
        reveal_strlit("E");
        reveal_strlit("F");
    }
    let digit: &str = match n {
        0 => "0",
        1 => "1",
        2 => "2",
        3 => "3",
        4 => "4",
        5 => "5",
        6 => "6",
        7 => "7",
        8 => "8",
        9 => "9",
        10 => "A",
        11 => "B",
        12 => "C",
        13 => "D",
        14 => "E",
        _ => "F",
    };
    assert(digit@ =~= seq![hex_digit(n as int)]);
    out.append(digit);
    assert(out@ =~= old(out)@.push(hex_digit(n as int)));
}

/// Appends `b` as two hexadecimal digits.
fn put_byte(out: &mut String, b: u8)
    ensures
        final(out)@ == old(out)@ + hex_byte(b),
{
    put_digit(out, b / 16);
    put_digit(out, b % 16);
    assert(out@ =~= old(out)@ + hex_byte(b));
}

/// Appends `w` as four hexadecimal digits.
fn put_word(out: &mut String, w: u16)
    ensures
        final(out)@ == old(out)@ + hex_word(w),
{
    put_byte(out, (w / 0x100) as u8);
    put_byte(out, (w % 0x100) as u8);
    assert(out@ =~= old(out)@ + hex_word(w));
}

/// Appends a table of `data` whose first row is labelled `offset`.
fn put_table(out: &mut String, data: &[u8], offset: u16)
    ensures
        final(out)@ == old(out)@ + table_text(data@, offset),
{
    out.append("       ");
    let mut column: u8 = 0;
    let ghost heads: Seq<char> = Seq::empty();
    assert(column_heads(0) =~= heads + column_heads(0));
    while column < 16
        invariant
            column <= 16,
            out@ == old(out)@ + "       "@ + heads,
            column_heads(0) == heads + column_heads(column as int),
        decreases 16 - column,
    {
        proof {
            reveal_strlit(" ");
        }
        out.append(" ");
        put_digit(out, column);
        out.append(" ");
        proof {
            let head = seq![' ', hex_digit(column as int), ' '];
            assert(out@ =~= old(out)@ + "       "@ + (heads + head));
            assert(heads + (head + column_heads(column as int + 1)) =~= (heads + head)
                + column_heads(column as int + 1));
            heads = heads + head;
        }
        column += 1;
    }
    out.append("\n");
    assert(heads =~= column_heads(0));
    let mut from: usize = 0;
    let mut row: u16 = offset;
    let ghost rows: Seq<char> = Seq::empty();
    assert(rows_text(data@, 0, offset) =~= rows + rows_text(data@, 0, offset));
    while from < data.len()
        invariant
            from <= data.len(),
            out@ == old(out)@ + "       "@ + column_heads(0) + "\n"@ + rows,
            rows_text(data@, 0, offset) == rows + rows_text(data@, from as int, row),
        decreases data.len() - from,
    {
        let to: usize = if data.len() - from >= 16 { from + 16 } else { data.len() };
        let ghost before = out@;
        put_word(out, row);
        out.append(" : ");
        let mut k: usize = from;
        let ghost cells: Seq<char> = Seq::empty();
        assert(cells_text(data@, from as int, to as int) =~= cells + cells_text(
            data@,
            from as int,
            to as int,
        ));
        while k < to
            invariant
                from <= k <= to <= data.len(),
                out@ == before + hex_word(row) + " : "@ + cells,
                cells_text(data@, from as int, to as int) == cells + cells_text(
                    data@,
                    k as int,
                    to as int,
                ),
            decreases to - k,
        {
            put_byte(out, data[k]);
            out.append(" ");
            proof {
                let cell = hex_byte(data@[k as int]) + " "@;
                assert(out@ =~= before + hex_word(row) + " : "@ + (cells + cell));
                assert(cells + (cell + cells_text(data@, k as int + 1, to as int)) =~= (cells
                    + cell) + cells_text(data@, k as int + 1, to as int));
                cells = cells + cell;
            }
            k += 1;
        }
        out.append("\n");
        let next: u16 = if row < 0xFFEF { row + 16 } else { row };
        proof {
            assert(cells =~= cells_text(data@, from as int, to as int));
            let line = hex_word(row) + " : "@ + cells + "\n"@;
            assert(out@ =~= old(out)@ + "       "@ + column_heads(0) + "\n"@ + (rows + line));
            assert(rows + (line + rows_text(data@, to as int, next)) =~= (rows + line)
                + rows_text(data@, to as int, next));
            assert(rows_text(data@, from as int, row) =~= line + rows_text(
                data@,
                to as int,
                next,
            ));
            rows = rows + line;
        }
        from = to;
        row = next;
    }
    assert(out@ =~= old(out)@ + table_text(data@, offset));
}

impl Cpu {
    /// The registers on one line, as in `A: 00 X: 00 Y: 00 PC: 0000 SR: 00 SP: FF`.
    pub fn registers(&self) -> (text: String)
        ensures
            text@ == registers_text(self@),
    {
        let mut out = String::from_str("A: ");
        put_byte(&mut out, self.a);
        out.append(" X: ");
        put_byte(&mut out, self.x);
        out.append(" Y: ");
        put_byte(&mut out, self.y);
        out.append(" PC: ");
        put_word(&mut out, self.pc);
        out.append(" SR: ");
        put_byte(&mut out, self.sr);
        out.append(" SP: ");
        put_byte(&mut out, self.sp);
        out
    }

    /// The full dump: the registers, then tables of the zero page and of the
    /// stack page.
    pub fn dump(&self) -> (text: String)
        ensures
            text@ == dump_text(self@),
    {
        let mut out = String::from_str("Registers: \n    ");
        let registers = self.registers();
        out.append(registers.as_str());
        out.append("\n");
        out.append("\nZero Page:\n");
        put_table(&mut out, self.zero_page(), 0x0000);
        out.append("\nStack:\n");
        put_table(&mut out, self.stack(), 0x0100);
        out
    }

    /// A table of the whole address space.
    pub fn memory_dump(&self) -> (text: String)
        ensures
            text@ == table_text(self@.memory, 0x0000),
    {
        let mut out = String::new();
        put_table(&mut out, self.memory.as_slice(), 0x0000);
        assert(out@ =~= table_text(self@.memory, 0x0000));
        out
    }
}

} // verus!
