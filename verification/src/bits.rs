//! Bit-field extraction from raw register words.

use vstd::prelude::*;

verus! {

/// The field of a 32-bit word that starts at bit `offset` and is as wide as
/// `mask` (a run of ones from bit 0).
pub open spec fn field32(word: u32, offset: u32, mask: u32) -> u32 {
    (word >> offset) & mask
}

/// The field of a 64-bit word that starts at bit `offset` and is as wide as
/// `mask`.
pub open spec fn field64(word: u64, offset: u32, mask: u64) -> u64 {
    (word >> offset) & mask
}

/// The field of a 128-bit word that starts at bit `offset` and is as wide as
/// `mask`.
pub open spec fn field128(word: u128, offset: u32, mask: u128) -> u128 {
    (word >> offset) & mask
}

/// Extracts a field of a 32-bit word.
pub fn get_field32(word: u32, offset: u32, mask: u32) -> (r: u32)
    requires
        offset < 32,
    ensures
        r == field32(word, offset, mask),
        r <= mask,
{
    let r: u32 = (word >> offset) & mask;
    assert(((word >> offset) & mask) <= mask) by (bit_vector);
    r
}

/// Extracts a field of a 64-bit word.
pub fn get_field64(word: u64, offset: u32, mask: u64) -> (r: u64)
    requires
        offset < 64,
    ensures
        r == field64(word, offset, mask),
        r <= mask,
{
    let r: u64 = (word >> offset) & mask;
    assert(((word >> offset) & mask) <= mask) by (bit_vector);
    r
}

/// Extracts a field of a 128-bit word.
pub fn get_field128(word: u128, offset: u32, mask: u128) -> (r: u128)
    requires
        offset < 128,
    ensures
        r == field128(word, offset, mask),
        r <= mask,
{
    let r: u128 = (word >> offset) & mask;
    assert(((word >> offset) & mask) <= mask) by (bit_vector);
    r
}

/// `word` with its four bytes in reverse order.
pub open spec fn reversed32(word: u32) -> u32 {
    (field32(word, 0, 0xFF) << 24u32) | (field32(word, 8, 0xFF) << 16u32) | (field32(
        word,
        16,
        0xFF,
    ) << 8u32) | field32(word, 24, 0xFF)
}

/// Reverses the order of the four bytes of `word`.
#[verifier::when_used_as_spec(reversed32)]
pub fn reverse32(word: u32) -> (r: u32)
    ensures
        r == reversed32(word),
{
    (get_field32(word, 0, 0xFF) << 24u32) | (get_field32(word, 8, 0xFF) << 16u32) | (get_field32(
        word,
        16,
        0xFF,
    ) << 8u32) | get_field32(word, 24, 0xFF)
}

/// Reversing the bytes of a word twice gives the word back.
pub proof fn lemma_reverse32_twice(word: u32)
    ensures
        reversed32(reversed32(word)) == word,
{
    assert(reversed32(reversed32(word)) == word) by (bit_vector);
}

/// The four bytes of `word`, low byte first.
pub open spec fn le_bytes(word: u32) -> Seq<u8> {
    seq![
        (word % 256) as u8,
        ((word / 256) % 256) as u8,
        ((word / 65536) % 256) as u8,
        (word / 16777216) as u8,
    ]
}

/// The word whose four bytes, low byte first, are `bytes`.
pub open spec fn le_word(bytes: Seq<u8>) -> u32
    recommends
        bytes.len() == 4,
{
    (bytes[0] + bytes[1] * 256 + bytes[2] * 65536 + bytes[3] * 16777216) as u32
}

/// A word is the word of its bytes.
pub proof fn lemma_le_word_of_bytes(word: u32)
    ensures
        le_bytes(word).len() == 4,
        le_word(le_bytes(word)) == word,
{
}

/// Four bytes are the bytes of their word.
pub proof fn lemma_le_bytes_of_word(bytes: Seq<u8>)
    requires
        bytes.len() == 4,
    ensures
        le_bytes(le_word(bytes)) =~= bytes,
{
    let b0 = bytes[0] as int;
    let b1 = bytes[1] as int;
    let b2 = bytes[2] as int;
    let b3 = bytes[3] as int;
    let word = b0 + b1 * 256 + b2 * 65536 + b3 * 16777216;
    vstd::arithmetic::div_mod::lemma_fundamental_div_mod_converse(
        word,
        256,
        b1 + b2 * 256 + b3 * 65536,
        b0,
    );
    vstd::arithmetic::div_mod::lemma_fundamental_div_mod_converse(
        word / 256,
        256,
        b2 + b3 * 256,
        b1,
    );
    vstd::arithmetic::div_mod::lemma_fundamental_div_mod_converse(
        word,
        65536,
        b2 + b3 * 256,
        b0 + b1 * 256,
    );
    vstd::arithmetic::div_mod::lemma_fundamental_div_mod_converse(word / 65536, 256, b3, b2);
    vstd::arithmetic::div_mod::lemma_fundamental_div_mod_converse(
        word,
        16777216,
        b3,
        b0 + b1 * 256 + b2 * 65536,
    );
}

/// The words of `bytes`, each read low byte first.
pub open spec fn words_of(bytes: Seq<u8>) -> Seq<u32> {
    Seq::new((bytes.len() / 4) as nat, |k: int| le_word(bytes.subrange(4 * k, 4 * k + 4)))
}

/// `buffer` with `value` stored, low byte first, as word `word`. The other
/// bytes are those of `buffer`.
pub open spec fn with_word(buffer: Seq<u8>, word: int, value: u32) -> Seq<u8> {
    Seq::new(
        buffer.len(),
        |i: int|
            if 4 * word <= i < 4 * word + 4 {
                le_bytes(value)[i - 4 * word]
            } else {
                buffer[i]
            },
    )
}

/// `buffer` with each of `words` stored in turn, the `k`-th of them as the
/// word that `places` names for it.
pub open spec fn with_words(buffer: Seq<u8>, places: Seq<int>, words: Seq<u32>) -> Seq<u8>
    decreases places.len(),
{
    if places.len() == 0 {
        buffer
    } else {
        with_word(
            with_words(buffer, places.drop_last(), words),
            places.last(),
            words[places.len() - 1],
        )
    }
}

/// The first `count` words in their order: 0, 1, 2 and so on.
pub open spec fn in_order(count: nat) -> Seq<int> {
    Seq::new(count, |k: int| k)
}

/// Words stored in their order fill the buffer from its start: each byte
/// within them is the byte of its word, each byte beyond is as it was.
pub proof fn lemma_with_words_in_order(buffer: Seq<u8>, words: Seq<u32>, count: nat)
    requires
        4 * count <= buffer.len(),
        count <= words.len(),
    ensures
        with_words(buffer, in_order(count), words).len() == buffer.len(),
        forall|i: int|
            0 <= i < 4 * count ==> #[trigger] with_words(buffer, in_order(count), words)[i]
                == le_bytes(words[i / 4])[i % 4],
        forall|i: int|
            4 * count <= i < buffer.len() ==> #[trigger] with_words(
                buffer,
                in_order(count),
                words,
            )[i] == buffer[i],
    decreases count,
{
    if count > 0 {
        let fewer = (count - 1) as nat;
        lemma_with_words_in_order(buffer, words, fewer);
        assert(in_order(count).drop_last() =~= in_order(fewer));
        assert(in_order(count).last() == count - 1);
        let before = with_words(buffer, in_order(fewer), words);
        let after = with_words(buffer, in_order(count), words);
        assert(after == with_word(before, count - 1, words[count - 1]));
        assert forall|i: int| 0 <= i < 4 * count implies #[trigger] after[i] == le_bytes(
            words[i / 4],
        )[i % 4] by {
            if i >= 4 * fewer {
                assert(i / 4 == count - 1);
                assert(i % 4 == i - 4 * (count - 1));
            }
        }
    }
}

/// What was sent from a buffer and stored again in the same order is the
/// buffer: the words of `data`, stored in their order into a buffer of the
/// same length, make that buffer equal to `data`, byte for byte.
pub proof fn lemma_words_round_trip(data: Seq<u8>, buffer: Seq<u8>)
    requires
        data.len() % 4 == 0,
        buffer.len() == data.len(),
    ensures
        with_words(buffer, in_order(data.len() / 4), words_of(data)) =~= data,
{
    let count = data.len() / 4;
    let words = words_of(data);
    lemma_with_words_in_order(buffer, words, count);
    let filled = with_words(buffer, in_order(count), words);
    assert forall|i: int| 0 <= i < data.len() implies filled[i] == data[i] by {
        let k = i / 4;
        let four = data.subrange(4 * k, 4 * k + 4);
        lemma_le_bytes_of_word(four);
        assert(words[k] == le_word(four));
        assert(le_bytes(words[k])[i % 4] == four[i % 4]);
        assert(four[i % 4] == data[4 * k + i % 4]);
    }
}

/// Stores `value`, low byte first, as word `word` of `buffer`. The other
/// bytes of the buffer stay as they are.
pub fn store_word(buffer: &mut [u8], word: usize, value: u32)
    requires
        4 * word + 4 <= old(buffer)@.len(),
    ensures
        final(buffer)@ == with_word(old(buffer)@, word as int, value),
        final(buffer)@.len() == old(buffer)@.len(),
        final(buffer)@.subrange(4 * word, 4 * word + 4) == le_bytes(value),
        forall|i: int|
            0 <= i < old(buffer)@.len() && !(4 * word <= i < 4 * word + 4) ==> final(buffer)@[i]
                == old(buffer)@[i],
{
    let at: usize = 4 * word;
    buffer[at] = (value % 256) as u8;
    buffer[at + 1] = ((value / 256) % 256) as u8;
    buffer[at + 2] = ((value / 65536) % 256) as u8;
    buffer[at + 3] = (value / 16777216) as u8;
    assert(buffer@.subrange(4 * word, 4 * word + 4) =~= le_bytes(value));
    assert(buffer@ =~= with_word(old(buffer)@, word as int, value));
}

/// Word `word` of `buffer`, read low byte first.
pub fn load_word(buffer: &[u8], word: usize) -> (r: u32)
    requires
        4 * word + 4 <= buffer@.len(),
    ensures
        r == le_word(buffer@.subrange(4 * word, 4 * word + 4)),
        r == words_of(buffer@)[word as int],
{
    let length: usize = buffer.len();
    let at: usize = 4 * word;
    buffer[at] as u32 + (buffer[at + 1] as u32) * 256 + (buffer[at + 2] as u32) * 65536 + (
    buffer[at + 3] as u32) * 16777216
}

} // verus!
