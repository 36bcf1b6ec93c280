//! How items lie in the payload of a frame: bits packed eight to a byte,
//! lowest bit first, and registers as two bytes each, high byte first.

use vstd::prelude::*;

verus! {

/// Number of bytes that hold `count` packed bits.
pub open spec fn packed_len(count: nat) -> nat {
    (count + 7) / 8
}

/// Bit `k` of a byte, counted from the lowest.
pub open spec fn bit_of(byte: u8, k: u8) -> bool {
    (byte >> k) & 1 == 1
}

/// The byte whose bits are the eight given, the first being the lowest.
pub open spec fn byte_of_bits(
    b0: bool,
    b1: bool,
    b2: bool,
    b3: bool,
    b4: bool,
    b5: bool,
    b6: bool,
    b7: bool,
) -> u8 {
    (if b0 { 0x01u8 } else { 0u8 })
        | (if b1 { 0x02u8 } else { 0u8 })
        | (if b2 { 0x04u8 } else { 0u8 })
        | (if b3 { 0x08u8 } else { 0u8 })
        | (if b4 { 0x10u8 } else { 0u8 })
        | (if b5 { 0x20u8 } else { 0u8 })
        | (if b6 { 0x40u8 } else { 0u8 })
        | (if b7 { 0x80u8 } else { 0u8 })
}

/// Item `i` of `bits` where there is one, and `false` beyond the end.
pub open spec fn bit_or_clear(bits: Seq<bool>, i: int) -> bool {
    0 <= i < bits.len() && bits[i]
}

/// Byte `j` of the packed form of `bits`: items `8j` to `8j + 7`, padded
/// with clear bits.
pub open spec fn packed_byte(bits: Seq<bool>, j: int) -> u8 {
    byte_of_bits(
        bit_or_clear(bits, 8 * j),
        bit_or_clear(bits, 8 * j + 1),
        bit_or_clear(bits, 8 * j + 2),
        bit_or_clear(bits, 8 * j + 3),
        bit_or_clear(bits, 8 * j + 4),
        bit_or_clear(bits, 8 * j + 5),
        bit_or_clear(bits, 8 * j + 6),
        bit_or_clear(bits, 8 * j + 7),
    )
}

/// The packed form of a sequence of bits.
pub open spec fn pack_bits_spec(bits: Seq<bool>) -> Seq<u8> {
    Seq::new(packed_len(bits.len()), |j: int| packed_byte(bits, j))
}

/// The first `count` bits of a packed payload; item `i` is bit `i % 8` of
/// byte `i / 8`.
pub open spec fn unpack_bits_spec(payload: Seq<u8>, count: nat) -> Seq<bool> {
    Seq::new(count, |i: int| bit_of(payload[i / 8], (i % 8) as u8))
}

/// High byte of a 16-bit word.
pub open spec fn high_byte(word: u16) -> u8 {
    (word / 256) as u8
}

/// Low byte of a 16-bit word.
pub open spec fn low_byte(word: u16) -> u8 {
    (word % 256) as u8
}

/// The word with the given high and low bytes.
pub open spec fn word_of(high: u8, low: u8) -> u16 {
    (high * 256 + low) as u16
}

/// The payload form of a sequence of registers.
pub open spec fn pack_words_spec(words: Seq<u16>) -> Seq<u8> {
    Seq::new(
        2 * words.len(),
        |j: int|
            if j % 2 == 0 {
                high_byte(words[j / 2])
            } else {
                low_byte(words[j / 2])
            },
    )
}

/// The first `count` registers of a payload.
pub open spec fn unpack_words_spec(payload: Seq<u8>, count: nat) -> Seq<u16> {
    Seq::new(count, |i: int| word_of(payload[2 * i], payload[2 * i + 1]))
}

/// Bit `k` of a byte built from eight bits is the `k`-th of them.
pub proof fn lemma_bit_of_byte_of_bits(
    b0: bool,
    b1: bool,
    b2: bool,
    b3: bool,
    b4: bool,
    b5: bool,
    b6: bool,
    b7: bool,
    k: u8,
)
    by (bit_vector)
    requires
        k < 8,
    ensures
        bit_of(byte_of_bits(b0, b1, b2, b3, b4, b5, b6, b7), k) == (if k == 0 {
            b0
        } else if k == 1 {
            b1
        } else if k == 2 {
            b2
        } else if k == 3 {
            b3
        } else if k == 4 {
            b4
        } else if k == 5 {
            b5
        } else if k == 6 {
            b6
        } else {
            b7
        }),
{
}

/// Packing takes one byte for every eight bits begun, and unpacking the
/// packed form gives the bits back, each in its place.
pub proof fn lemma_bits_round_trip(bits: Seq<bool>)
    ensures
        pack_bits_spec(bits).len() == packed_len(bits.len()),
        unpack_bits_spec(pack_bits_spec(bits), bits.len()) == bits,
{
    let packed = pack_bits_spec(bits);
    let back = unpack_bits_spec(packed, bits.len());
    assert forall|i: int| 0 <= i < bits.len() implies back[i] == bits[i] by {
        let j = i / 8;
        let k = (i % 8) as u8;
        assert(0 <= j < packed_len(bits.len()));
        assert(packed[j] == packed_byte(bits, j));
        lemma_bit_of_byte_of_bits(
            bit_or_clear(bits, 8 * j),
            bit_or_clear(bits, 8 * j + 1),
            bit_or_clear(bits, 8 * j + 2),
            bit_or_clear(bits, 8 * j + 3),
            bit_or_clear(bits, 8 * j + 4),
            bit_or_clear(bits, 8 * j + 5),
            bit_or_clear(bits, 8 * j + 6),
            bit_or_clear(bits, 8 * j + 7),
            k,
        );
        assert(8 * j + k == i);
    }
    assert(back =~= bits);
}

/// A word is the word of its two bytes.
pub proof fn lemma_word_of_its_bytes(word: u16, high: u8, low: u8)
    ensures
        word_of(high_byte(word), low_byte(word)) == word,
        high_byte(word_of(high, low)) == high,
        low_byte(word_of(high, low)) == low,
{
}

/// Registers take two bytes each, and unpacking the payload form gives the
/// registers back, each in its place.
pub proof fn lemma_words_round_trip(words: Seq<u16>)
    ensures
        pack_words_spec(words).len() == 2 * words.len(),
        unpack_words_spec(pack_words_spec(words), words.len()) == words,
{
    let packed = pack_words_spec(words);
    let back = unpack_words_spec(packed, words.len());
    assert forall|i: int| 0 <= i < words.len() implies back[i] == words[i] by {
        assert(packed[2 * i] == high_byte(words[i]));
        assert(packed[2 * i + 1] == low_byte(words[i]));
        lemma_word_of_its_bytes(words[i], 0, 0);
    }
    assert(back =~= words);
}

/// Unpacks the first `count` bits of a payload.
pub fn unpack_bits(payload: &[u8], count: usize) -> (bits: Vec<bool>)
    requires
        payload@.len() >= packed_len(count as nat),
    ensures
        bits@ == unpack_bits_spec(payload@, count as nat),
{
    let mut bits: Vec<bool> = Vec::new();
    let mut i: usize = 0;
    while i < count
        invariant
            i <= count,
            payload@.len() >= packed_len(count as nat),
            bits@ == unpack_bits_spec(payload@, i as nat),
        decreases count - i,
    {
        let byte: u8 = payload[i / 8];
        let k: u8 = (i % 8) as u8;
        let bit: bool = ((byte >> k) & 1) == 1;
        bits.push(bit);
        i += 1;
        assert(bits@ =~= unpack_bits_spec(payload@, i as nat));
    }
    bits
}

/// Unpacks the first `count` registers of a payload.
pub fn unpack_words(payload: &[u8], count: usize) -> (words: Vec<u16>)
    requires
        payload@.len() >= 2 * count,
    ensures
        words@ == unpack_words_spec(payload@, count as nat),
{
    let mut words: Vec<u16> = Vec::new();
    let mut i: usize = 0;
    let len: usize = payload.len();
    while i < count
        invariant
            i <= count,
            len == payload@.len(),
            len >= 2 * count,
            words@ == unpack_words_spec(payload@, i as nat),
        decreases count - i,
    {
        let high: u8 = payload[2 * i];
        let low: u8 = payload[2 * i + 1];
        let word: u16 = (high as u16) * 256 + (low as u16);
        words.push(word);
        i += 1;
        assert(words@ =~= unpack_words_spec(payload@, i as nat));
    }
    words
}

/// Setting bit `k` of a byte built from eight bits gives the byte built
/// from the same bits with the `k`-th set.
proof fn lemma_set_bit(
    b0: bool,
    b1: bool,
    b2: bool,
    b3: bool,
    b4: bool,
    b5: bool,
    b6: bool,
    b7: bool,
    k: u8,
)
    by (bit_vector)
    requires
        k < 8,
    ensures
        byte_of_bits(b0, b1, b2, b3, b4, b5, b6, b7) | (1u8 << k) == byte_of_bits(
            b0 || k == 0,
            b1 || k == 1,
            b2 || k == 2,
            b3 || k == 3,
            b4 || k == 4,
            b5 || k == 5,
            b6 || k == 6,
            b7 || k == 7,
        ),
{
}

/// Packs the eight bits from item `from` on into one byte, the first being
/// the lowest; where `bits` ends sooner, the remaining bits are clear.
pub fn pack_byte(bits: &[bool], from: usize) -> (byte: u8)
    requires
        from <= bits@.len(),
    ensures
        byte == byte_of_bits(
            bit_or_clear(bits@, from as int),
            bit_or_clear(bits@, from + 1),
            bit_or_clear(bits@, from + 2),
            bit_or_clear(bits@, from + 3),
            bit_or_clear(bits@, from + 4),
            bit_or_clear(bits@, from + 5),
            bit_or_clear(bits@, from + 6),
            bit_or_clear(bits@, from + 7),
        ),
{
    let len: usize = bits.len();
    let mut byte: u8 = 0;
    let mut k: u8 = 0;
    assert(byte_of_bits(false, false, false, false, false, false, false, false) == 0u8)
        by (bit_vector);
    while k < 8 && (k as usize) < len - from
        invariant
            k <= 8,
            from <= len,
            len == bits@.len(),
            byte == byte_of_bits(
                k > 0 && bit_or_clear(bits@, from as int),
                k > 1 && bit_or_clear(bits@, from + 1),
                k > 2 && bit_or_clear(bits@, from + 2),
                k > 3 && bit_or_clear(bits@, from + 3),
                k > 4 && bit_or_clear(bits@, from + 4),
                k > 5 && bit_or_clear(bits@, from + 5),
                k > 6 && bit_or_clear(bits@, from + 6),
                k > 7 && bit_or_clear(bits@, from + 7),
            ),
        decreases 8 - k,
    {
        if bits[from + k as usize] {
            proof {
                lemma_set_bit(
                    k > 0 && bit_or_clear(bits@, from as int),
                    k > 1 && bit_or_clear(bits@, from + 1),
                    k > 2 && bit_or_clear(bits@, from + 2),
                    k > 3 && bit_or_clear(bits@, from + 3),
                    k > 4 && bit_or_clear(bits@, from + 4),
                    k > 5 && bit_or_clear(bits@, from + 5),
                    k > 6 && bit_or_clear(bits@, from + 6),
                    k > 7 && bit_or_clear(bits@, from + 7),
                    k,
                );
            }
            byte = byte | (1u8 << k);
        }
        k += 1;
    }
    byte
}

/// Packs bits eight to a byte, lowest bit first, padding the last byte
/// with clear bits.
pub fn pack_bits(bits: &[bool]) -> (packed: Vec<u8>)
    ensures
        packed@ == pack_bits_spec(bits@),
        packed@.len() == packed_len(bits@.len()),
{
    let len: usize = bits.len();
    let mut packed: Vec<u8> = Vec::new();
    let mut j: usize = 0;
    let full: usize = len / 8;
    let count: usize = if len % 8 == 0 {
        full
    } else {
        full + 1
    };
    while j < count
        invariant
            len == bits@.len(),
            count == packed_len(len as nat),
            j <= packed_len(len as nat),
            packed@.len() == j,
            forall|i: int| 0 <= i < j ==> packed@[i] == packed_byte(bits@, i),
        decreases packed_len(len as nat) - j,
    {
        let byte: u8 = pack_byte(bits, 8 * j);
        packed.push(byte);
        j += 1;
    }
    assert(packed@ =~= pack_bits_spec(bits@));
    packed
}

/// Lays registers out as two bytes each, high byte first.
pub fn pack_words(words: &[u16]) -> (packed: Vec<u8>)
    ensures
        packed@ == pack_words_spec(words@),
        packed@.len() == 2 * words@.len(),
{
    let len: usize = words.len();
    let mut packed: Vec<u8> = Vec::new();
    let mut i: usize = 0;
    while i < len
        invariant
            i <= len,
            len == words@.len(),
            packed@.len() == 2 * i,
            forall|j: int|
                0 <= j < 2 * i ==> packed@[j] == (if j % 2 == 0 {
                    high_byte(words@[j / 2])
                } else {
                    low_byte(words@[j / 2])
                }),
        decreases len - i,
    {
        let word: u16 = words[i];
        packed.push((word / 256) as u8);
        packed.push((word % 256) as u8);
        i += 1;
    }
    assert(packed@ =~= pack_words_spec(words@));
    packed
}

} // verus!
