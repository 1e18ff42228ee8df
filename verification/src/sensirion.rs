//! The word framing Sensirion sensors use on the wire.
//!
//! Every 16-bit word travels big-endian and is followed by the Sensirion
//! CRC-8 of its two bytes, so `n` words are `3 * n` bytes.

use vstd::prelude::*;
use crate::crc::{crc8, crc8_register};

verus! {

/// The two data bytes of a word, most significant first, joined into a value.
pub open spec fn be_word(high: u8, low: u8) -> u16 {
    (high as int * 256 + low as int) as u16
}

/// Whether the CRC byte of the `index`-th 3-byte group of `raw` matches its
/// two data bytes.
pub open spec fn chunk_ok(raw: Seq<u8>, index: int) -> bool {
    crc8_register(raw.subrange(3 * index, 3 * index + 2)) == raw[3 * index + 2]
}

/// Whether every complete 3-byte group of `raw` carries a matching CRC.
pub open spec fn all_chunks_ok(raw: Seq<u8>) -> bool {
    forall|i: int| 0 <= i < raw.len() / 3 ==> #[trigger] chunk_ok(raw, i)
}

/// The words carried by the complete 3-byte groups of `raw`.
pub open spec fn chunk_words(raw: Seq<u8>) -> Seq<u16> {
    Seq::new((raw.len() / 3) as nat, |i: int| be_word(raw[3 * i], raw[3 * i + 1]))
}

/// The wire form of a sequence of words: each word big-endian, followed by
/// its CRC-8.
pub open spec fn framed(words: Seq<u16>) -> Seq<u8>
    decreases words.len(),
{
    if words.len() == 0 {
        Seq::empty()
    } else {
        framed(words.drop_last()) + word_frame(words.last())
    }
}

/// The three bytes one word occupies on the wire.
pub open spec fn word_frame(word: u16) -> Seq<u8> {
    let high = (word / 256) as u8;
    let low = (word % 256) as u8;
    seq![high, low, crc8_register(seq![high, low])]
}

/// A group of three bytes whose CRC byte did not match its data bytes.
#[derive(Debug, Clone, Copy, PartialEq, Eq)]
pub enum CrcMismatch {
    /// A word came back with a CRC that does not match its data bytes.
    Crc,
}

/// Check and strip the CRC of every complete 3-byte group of `raw`.
///
/// Succeeds exactly when every group's CRC matches, and then returns one
/// word per group, in order.
pub fn decode_words(raw: &[u8]) -> (words: Result<Vec<u16>, CrcMismatch>)
    ensures
        match words {
            Ok(words) => all_chunks_ok(raw@) && words@ == chunk_words(raw@),
            Err(_) => !all_chunks_ok(raw@),
        },
{
    let count = raw.len() / 3;
    let mut words: Vec<u16> = Vec::new();
    let mut index: usize = 0;
    while index < count
        invariant
            count == raw@.len() / 3,
            index <= count,
            words@.len() == index,
            forall|i: int| 0 <= i < index ==> #[trigger] chunk_ok(raw@, i),
            forall|i: int| 0 <= i < index ==> #[trigger] words@[i] == be_word(raw@[3 * i], raw@[3 * i + 1]),
        decreases count - index,
    {
        assert(3 * index + 2 < raw.len()) by (nonlinear_arith)
            requires index < count, count == raw.len() / 3;
        let start = 3 * index;
        let high = raw[start];
        let low = raw[start + 1];
        let data = [high, low];
        assert(data@ =~= raw@.subrange(3 * index as int, 3 * index as int + 2));
        if crc8(&data) != raw[start + 2] {
            assert(!chunk_ok(raw@, index as int));
            return Err(CrcMismatch::Crc);
        }
        let word = (high as u16) * 256 + (low as u16);
        words.push(word);
        index = index + 1;
    }
    assert(words@ =~= chunk_words(raw@));
    Ok(words)
}

/// Put `words` on the wire: each word big-endian, followed by its CRC-8.
pub fn encode_words(words: &[u16]) -> (raw: Vec<u8>)
    requires
        words.len() * 3 <= usize::MAX,
    ensures
        raw@ == framed(words@),
{
    let mut raw: Vec<u8> = Vec::new();
    let mut index: usize = 0;
    while index < words.len()
        invariant
            index <= words.len(),
            raw@ == framed(words@.subrange(0, index as int)),
        decreases words.len() - index,
    {
        let word = words[index];
        let high = (word / 256) as u8;
        let low = (word % 256) as u8;
        let data = [high, low];
        assert(data@ =~= seq![high, low]);
        let crc = crc8(&data);
        raw.push(high);
        raw.push(low);
        raw.push(crc);
        assert(words@.subrange(0, index as int + 1).drop_last() =~= words@.subrange(0, index as int));
        assert(raw@ =~= framed(words@.subrange(0, index as int)) + word_frame(word));
        index = index + 1;
    }
    assert(words@.subrange(0, words@.len() as int) =~= words@);
    raw
}

/// The framed form of `words` is three bytes per word, and word `i` sits at
/// bytes `3 i .. 3 i + 3`.
pub proof fn lemma_framed_layout(words: Seq<u16>)
    ensures
        framed(words).len() == 3 * words.len(),
        forall|i: int| 0 <= i < words.len() ==> framed(words).subrange(3 * i, 3 * i + 3) == #[trigger] word_frame(words[i]),
    decreases words.len(),
{
    if words.len() > 0 {
        let prefix = words.drop_last();
        lemma_framed_layout(prefix);
        let f = framed(words);
        assert(f == framed(prefix) + word_frame(words.last()));
        assert forall|i: int| 0 <= i < words.len() implies f.subrange(3 * i, 3 * i + 3) == #[trigger] word_frame(words[i]) by {
            if i < prefix.len() {
                assert(framed(prefix).subrange(3 * i, 3 * i + 3) == word_frame(prefix[i]));
                assert(f.subrange(3 * i, 3 * i + 3) =~= framed(prefix).subrange(3 * i, 3 * i + 3));
            } else {
                assert(f.subrange(3 * i, 3 * i + 3) =~= word_frame(words.last()));
            }
        }
    }
}

/// Decoding what was encoded gives the words back: every CRC matches, and
/// the words come out in the order they went in.
pub proof fn lemma_decode_encoded(words: Seq<u16>)
    ensures
        all_chunks_ok(framed(words)),
        chunk_words(framed(words)) == words,
{
    lemma_framed_layout(words);
    let f = framed(words);
    assert(f.len() / 3 == words.len());
    assert forall|i: int| 0 <= i < f.len() / 3 implies #[trigger] chunk_ok(f, i) by {
        let frame = word_frame(words[i]);
        assert(f.subrange(3 * i, 3 * i + 3) == frame);
        assert(f.subrange(3 * i, 3 * i + 2) =~= frame.subrange(0, 2));
        assert(frame.subrange(0, 2) =~= seq![(words[i] / 256) as u8, (words[i] % 256) as u8]);
        assert(f[3 * i + 2] == frame[2]);
    }
    assert forall|i: int| 0 <= i < words.len() implies #[trigger] chunk_words(f)[i] == words[i] by {
        let frame = word_frame(words[i]);
        assert(f.subrange(3 * i, 3 * i + 3) == frame);
        assert(f[3 * i] == frame[0]);
        assert(f[3 * i + 1] == frame[1]);
        let w = words[i];
        assert(be_word((w / 256) as u8, (w % 256) as u8) == w) by (nonlinear_arith)
            requires 0 <= w < 65536;
    }
    assert(chunk_words(f) =~= words);
}

} // verus!
