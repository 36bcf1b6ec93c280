//! The lines of a dump of read data, eight items to a line, as values
//! ready to be printed.

use crate::payload::{pack_byte, pack_words_spec, packed_byte, packed_len};
use vstd::prelude::*;

verus! {

/// One line of a dump of bits.
#[derive(Clone, Debug, PartialEq, Eq)]
pub struct BitLine {
    /// Address of the first item of the line.
    pub address: u16,
    /// The items of the line, at most eight.
    pub bits: Vec<bool>,
    /// The items packed into a byte, the first being the lowest bit.
    pub byte: u8,
}

/// The mathematical value of a [`BitLine`].
pub struct BitLineData {
    /// Address of the first item of the line.
    pub address: u16,
    /// The items of the line.
    pub bits: Seq<bool>,
    /// The items packed into a byte.
    pub byte: u8,
}

impl View for BitLine {
    type V = BitLineData;

    open spec fn view(&self) -> BitLineData {
        BitLineData { address: self.address, bits: self.bits@, byte: self.byte }
    }
}

/// One line of a dump of registers.
#[derive(Clone, Debug, PartialEq, Eq)]
pub struct WordLine {
    /// Address of the first item of the line.
    pub address: u16,
    /// The items of the line, at most eight.
    pub words: Vec<u16>,
    /// The bytes of the items as text, two characters for each item, high
    /// byte first.
    pub text: Vec<char>,
}

/// The mathematical value of a [`WordLine`].
pub struct WordLineData {
    /// Address of the first item of the line.
    pub address: u16,
    /// The items of the line.
    pub words: Seq<u16>,
    /// The bytes of the items as text.
    pub text: Seq<char>,
}

impl View for WordLine {
    type V = WordLineData;

    open spec fn view(&self) -> WordLineData {
        WordLineData { address: self.address, words: self.words@, text: self.text@ }
    }
}

/// Every item of a run of `len` items from `start_address` on has an
/// address within 16 bits.
pub open spec fn addresses_fit(len: nat, start_address: u16) -> bool {
    len == 0 || start_address + len - 1 <= 0xFFFF
}

/// Where line `j` of a dump of `len` items ends.
pub open spec fn line_end(len: nat, j: int) -> int {
    if 8 * j + 8 <= len {
        8 * j + 8
    } else {
        len as int
    }
}

/// The character shown for a byte: the byte itself where it is a visible
/// ASCII character or a space, else a dot.
pub open spec fn printable_spec(byte: u8) -> char {
    if 32 <= byte <= 126 {
        byte as char
    } else {
        '.'
    }
}

/// The text shown for a run of registers.
pub open spec fn text_spec(words: Seq<u16>) -> Seq<char> {
    Seq::new(2 * words.len(), |k: int| printable_spec(pack_words_spec(words)[k]))
}

/// Line `j` of the dump of `bits`.
pub open spec fn bit_line_spec(bits: Seq<bool>, start_address: u16, j: int) -> BitLineData {
    BitLineData {
        address: (start_address + 8 * j) as u16,
        bits: bits.subrange(8 * j, line_end(bits.len(), j)),
        byte: packed_byte(bits, j),
    }
}

/// Line `j` of the dump of `words`.
pub open spec fn word_line_spec(words: Seq<u16>, start_address: u16, j: int) -> WordLineData {
    WordLineData {
        address: (start_address + 8 * j) as u16,
        words: words.subrange(8 * j, line_end(words.len(), j)),
        text: text_spec(words.subrange(8 * j, line_end(words.len(), j))),
    }
}

/// Says whether every item of a run of `len` items from `start_address`
/// on has an address within 16 bits.
pub fn addresses_in_range(len: usize, start_address: u16) -> (fit: bool)
    ensures
        fit == addresses_fit(len as nat, start_address),
{
    len == 0 || len - 1 <= (0xFFFF - start_address) as usize
}

/// Address of item `index` of a run that starts at `start_address`.
pub fn item_address(start_address: u16, index: usize) -> (address: u16)
    requires
        start_address + index <= 0xFFFF,
    ensures
        address == start_address + index,
{
    start_address + (index as u16)
}

/// The character shown for a byte.
pub fn printable(byte: u8) -> (c: char)
    ensures
        c == printable_spec(byte),
{
    if byte >= 32 && byte <= 126 {
        byte as char
    } else {
        '.'
    }
}

/// The text shown for a run of registers: for each of them the character
/// of its high byte, then that of its low byte.
pub fn text_of(words: &[u16]) -> (text: Vec<char>)
    ensures
        text@ == text_spec(words@),
{
    let len: usize = words.len();
    let mut text: Vec<char> = Vec::new();
    let mut i: usize = 0;
    while i < len
        invariant
            i <= len,
            len == words@.len(),
            text@.len() == 2 * i,
            forall|k: int| 0 <= k < 2 * i ==> text@[k] == text_spec(words@)[k],
        decreases len - i,
    {
        let word: u16 = words[i];
        text.push(printable((word / 256) as u8));
        text.push(printable((word % 256) as u8));
        i += 1;
    }
    assert(text@ =~= text_spec(words@));
    text
}

/// Splits bits into lines of eight, each with the address of its first
/// item and the byte its items pack into.
pub fn bit_dump(bits: &[bool], start_address: u16) -> (lines: Vec<BitLine>)
    requires
        addresses_fit(bits@.len(), start_address),
    ensures
        lines@.len() == packed_len(bits@.len()),
        forall|j: int|
            0 <= j < lines@.len() ==> (#[trigger] lines@[j])@ == bit_line_spec(
                bits@,
                start_address,
                j,
            ),
{
    let len: usize = bits.len();
    let mut lines: Vec<BitLine> = Vec::new();
    let mut from: usize = 0;
    while from < len
        invariant
            len == bits@.len(),
            addresses_fit(len as nat, start_address),
            from % 8 == 0,
            from <= len + 7,
            lines@.len() == from / 8,
            from >= len ==> lines@.len() == packed_len(len as nat),
            forall|j: int|
                0 <= j < lines@.len() ==> (#[trigger] lines@[j])@ == bit_line_spec(
                    bits@,
                    start_address,
                    j,
                ),
        decreases len + 8 - from,
    {
        let end: usize = if len - from >= 8 {
            from + 8
        } else {
            len
        };
        let mut items: Vec<bool> = Vec::new();
        let mut i: usize = from;
        while i < end
            invariant
                from <= i <= end <= len,
                len == bits@.len(),
                items@ == bits@.subrange(from as int, i as int),
            decreases end - i,
        {
            items.push(bits[i]);
            i += 1;
            assert(items@ =~= bits@.subrange(from as int, i as int));
        }
        let line = BitLine {
            address: item_address(start_address, from),
            bits: items,
            byte: pack_byte(bits, from),
        };
        assert(line@ == bit_line_spec(bits@, start_address, from as int / 8));
        lines.push(line);
        from = from + 8;
    }
    lines
}

/// Splits registers into lines of eight, each with the address of its
/// first item and the text of its items.
pub fn word_dump(words: &[u16], start_address: u16) -> (lines: Vec<WordLine>)
    requires
        addresses_fit(words@.len(), start_address),
    ensures
        lines@.len() == packed_len(words@.len()),
        forall|j: int|
            0 <= j < lines@.len() ==> (#[trigger] lines@[j])@ == word_line_spec(
                words@,
                start_address,
                j,
            ),
{
    let len: usize = words.len();
    let mut lines: Vec<WordLine> = Vec::new();
    let mut from: usize = 0;
    while from < len
        invariant
            len == words@.len(),
            addresses_fit(len as nat, start_address),
            from % 8 == 0,
            from <= len + 7,
            lines@.len() == from / 8,
            from >= len ==> lines@.len() == packed_len(len as nat),
            forall|j: int|
                0 <= j < lines@.len() ==> (#[trigger] lines@[j])@ == word_line_spec(
                    words@,
                    start_address,
                    j,
                ),
        decreases len + 8 - from,
    {
        let end: usize = if len - from >= 8 {
            from + 8
        } else {
            len
        };
        let mut items: Vec<u16> = Vec::new();
        let mut i: usize = from;
        while i < end
            invariant
                from <= i <= end <= len,
                len == words@.len(),
                items@ == words@.subrange(from as int, i as int),
            decreases end - i,
        {
            items.push(words[i]);
            i += 1;
            assert(items@ =~= words@.subrange(from as int, i as int));
        }
        let text: Vec<char> = text_of(items.as_slice());
        let line = WordLine { address: item_address(start_address, from), words: items, text };
        assert(line@ == word_line_spec(words@, start_address, from as int / 8));
        lines.push(line);
        from = from + 8;
    }
    lines
}

} // verus!
