//! CRC-16 as Modbus RTU uses it: reflected polynomial `0xA001`, register
//! preset to `0xFFFF`, no final inversion.

use vstd::prelude::*;

verus! {

/// Reflected form of the generator polynomial x^16 + x^15 + x^2 + 1.
pub const POLYNOMIAL: u16 = 0xA001;

/// Value of the register before the first byte is folded in.
pub const PRESET: u16 = 0xFFFF;

/// One shift of the register: the low bit leaves, and where it was set the
/// polynomial is folded into what remains.
pub open spec fn shift_spec(reg: u16) -> u16 {
    if reg & 1 == 1 {
        (reg >> 1) ^ 0xA001
    } else {
        reg >> 1
    }
}

/// The register after one byte: the byte is folded into the low half, then
/// the register is shifted eight times.
pub open spec fn fold_byte_spec(reg: u16, byte: u8) -> u16 {
    shift_spec(
        shift_spec(
            shift_spec(
                shift_spec(
                    shift_spec(shift_spec(shift_spec(shift_spec(reg ^ (byte as u16))))),
                ),
            ),
        ),
    )
}

/// The register after a run of bytes, taken in order.
pub open spec fn fold_spec(reg: u16, bytes: Seq<u8>) -> u16
    decreases bytes.len(),
{
    if bytes.len() == 0 {
        reg
    } else {
        fold_byte_spec(fold_spec(reg, bytes.drop_last()), bytes.last())
    }
}

/// The checksum of a byte sequence.
pub open spec fn crc16_spec(bytes: Seq<u8>) -> u16 {
    fold_spec(0xFFFF, bytes)
}

fn shift(reg: u16) -> (out: u16)
    ensures
        out == shift_spec(reg),
{
    if (reg & 1) == 1 {
        (reg >> 1) ^ POLYNOMIAL
    } else {
        reg >> 1
    }
}

/// Folds one byte into the register.
pub fn fold_byte(reg: u16, byte: u8) -> (out: u16)
    ensures
        out == fold_byte_spec(reg, byte),
{
    let mut r: u16 = reg ^ (byte as u16);
    r = shift(r);
    r = shift(r);
    r = shift(r);
    r = shift(r);
    r = shift(r);
    r = shift(r);
    r = shift(r);
    r = shift(r);
    r
}

/// Computes the checksum of `data`.
pub fn crc16(data: &[u8]) -> (crc: u16)
    ensures
        crc == crc16_spec(data@),
{
    let mut reg: u16 = PRESET;
    let mut i: usize = 0;
    while i < data.len()
        invariant
            i <= data.len(),
            reg == fold_spec(0xFFFF, data@.take(i as int)),
        decreases data.len() - i,
    {
        proof {
            assert(data@.take(i + 1).drop_last() =~= data@.take(i as int));
        }
        reg = fold_byte(reg, data[i]);
        i += 1;
    }
    proof {
        assert(data@.take(data.len() as int) =~= data@);
    }
    reg
}

/// Two registers that differ still differ after the same byte.
pub proof fn lemma_fold_byte_keeps_registers_apart(a: u16, b: u16, byte: u8)
    by (bit_vector)
    requires
        a != b,
    ensures
        fold_byte_spec(a, byte) != fold_byte_spec(b, byte),
{
}

/// Two different bytes lead one register to two different registers.
pub proof fn lemma_fold_byte_keeps_bytes_apart(reg: u16, x: u8, y: u8)
    by (bit_vector)
    requires
        x != y,
    ensures
        fold_byte_spec(reg, x) != fold_byte_spec(reg, y),
{
}

/// Folding a concatenation is folding its second part from where the first
/// part left the register.
pub proof fn lemma_fold_concat(reg: u16, head: Seq<u8>, tail: Seq<u8>)
    ensures
        fold_spec(reg, head + tail) == fold_spec(fold_spec(reg, head), tail),
    decreases tail.len(),
{
    if tail.len() == 0 {
        assert(head + tail =~= head);
    } else {
        lemma_fold_concat(reg, head, tail.drop_last());
        assert((head + tail).drop_last() =~= head + tail.drop_last());
        assert((head + tail).last() == tail.last());
    }
}

/// Two registers that differ still differ after the same run of bytes.
pub proof fn lemma_fold_keeps_registers_apart(a: u16, b: u16, bytes: Seq<u8>)
    requires
        a != b,
    ensures
        fold_spec(a, bytes) != fold_spec(b, bytes),
    decreases bytes.len(),
{
    if bytes.len() > 0 {
        lemma_fold_keeps_registers_apart(a, b, bytes.drop_last());
        lemma_fold_byte_keeps_registers_apart(
            fold_spec(a, bytes.drop_last()),
            fold_spec(b, bytes.drop_last()),
            bytes.last(),
        );
    }
}

/// Replacing one byte of a sequence by a different byte changes the
/// checksum, whatever the sequence and wherever the byte stands.
pub proof fn lemma_crc16_detects_changed_byte(bytes: Seq<u8>, at: int, byte: u8)
    requires
        0 <= at < bytes.len(),
        byte != bytes[at],
    ensures
        crc16_spec(bytes.update(at, byte)) != crc16_spec(bytes),
{
    let head = bytes.take(at);
    let tail = bytes.skip(at + 1);
    let before = fold_spec(0xFFFF, head);
    assert(bytes =~= head.push(bytes[at]) + tail);
    assert(bytes.update(at, byte) =~= head.push(byte) + tail);
    lemma_fold_concat(0xFFFF, head.push(bytes[at]), tail);
    lemma_fold_concat(0xFFFF, head.push(byte), tail);
    assert(head.push(bytes[at]).drop_last() =~= head);
    assert(head.push(byte).drop_last() =~= head);
    lemma_fold_byte_keeps_bytes_apart(before, byte, bytes[at]);
    lemma_fold_keeps_registers_apart(
        fold_spec(0xFFFF, head.push(byte)),
        fold_spec(0xFFFF, head.push(bytes[at])),
        tail,
    );
}

/// A byte with one of its eight bits inverted.
pub open spec fn flip_bit(byte: u8, bit: u8) -> u8 {
    byte ^ (1u8 << bit)
}

/// Inverting any single bit of the input changes the checksum.
pub proof fn lemma_crc16_detects_flipped_bit(bytes: Seq<u8>, at: int, bit: u8)
    requires
        0 <= at < bytes.len(),
        bit < 8,
    ensures
        crc16_spec(bytes.update(at, flip_bit(bytes[at], bit))) != crc16_spec(bytes),
{
    let byte = bytes[at];
    assert(byte ^ (1u8 << bit) != byte) by (bit_vector)
        requires
            bit < 8,
    ;
    lemma_crc16_detects_changed_byte(bytes, at, flip_bit(byte, bit));
}

} // verus!
