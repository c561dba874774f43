//! The bulk data of a transfer: a block of random bytes, written again and
//! again. What the bytes are does not matter to a measurement; only their
//! number does.

use crate::frame::BUF_SIZE;
use crate::wire::put_le;
use rand::RngCore;
use vstd::prelude::*;

verus! {

/// Number of random words in a block.
pub const BLOCK_WORDS: usize = BUF_SIZE / 4;

/// The next word of the random number generator of this thread:
/// `rand::thread_rng()`, then `RngCore::next_u32` on it. Any word may come
/// back, so nothing is promised of the result. (The generator of a thread
/// is seeded by the operating system at its first use, and gives up where
/// the system has no seed for it.)
#[verifier::external_body]
fn random_word() -> (word: u32) {
    rand::thread_rng().next_u32()
}

/// The bytes of `words`, each word as four bytes, least significant first.
pub open spec fn words_bytes(words: Seq<u32>) -> Seq<u8>
    decreases words.len(),
{
    if words.len() == 0 {
        Seq::empty()
    } else {
        words_bytes(words.drop_last()) + crate::wire::le_bytes(words.last() as nat, 4)
    }
}

/// Every word gives four bytes.
pub proof fn lemma_words_bytes_len(words: Seq<u32>)
    ensures
        words_bytes(words).len() == 4 * words.len(),
    decreases words.len(),
{
    if words.len() > 0 {
        lemma_words_bytes_len(words.drop_last());
        crate::wire::lemma_le_bytes_len(words.last() as nat, 4);
    }
}

/// Lays `words` out as bytes, each word as four bytes, least significant
/// first.
pub fn block_from_words(words: &[u32]) -> (block: Vec<u8>)
    ensures
        block@ == words_bytes(words@),
        block@.len() == 4 * words@.len(),
{
    let mut block: Vec<u8> = Vec::new();
    let mut done: usize = 0;
    while done < words.len()
        invariant
            done <= words.len(),
            block@ == words_bytes(words@.take(done as int)),
        decreases words.len() - done,
    {
        put_le(&mut block, words[done] as u64, 4);
        done = done + 1;
        proof {
            assert(words@.take(done as int).drop_last() =~= words@.take(done - 1));
        }
    }
    proof {
        assert(words@.take(done as int) =~= words@);
        lemma_words_bytes_len(words@);
    }
    block
}

/// A block of `BUF_SIZE` random bytes.
pub fn random_block() -> (block: Vec<u8>)
    ensures
        block@.len() == BUF_SIZE,
{
    let mut words: Vec<u32> = Vec::new();
    while words.len() < BLOCK_WORDS
        invariant
            words@.len() <= BLOCK_WORDS,
        decreases BLOCK_WORDS - words@.len(),
    {
        words.push(random_word());
    }
    block_from_words(words.as_slice())
}

} // verus!
