//! Hashing a byte source block by block.
//!
//! The reads themselves are the caller's: a `DigestReader` hands out the
//! block to read into, takes the outcome of each read, and says what comes
//! next.

use vstd::prelude::*;
use crate::capability::{FixedOutput, Input};
use crate::digest::{messages_add_up, Digest};

verus! {

/// The number of bytes asked of the source in one read.
pub const BLOCK_SIZE: usize = 1024;

/// What follows a read that did not fail.
#[derive(Debug, PartialEq, Eq)]
pub enum Step {
    /// The source may hold more: read again.
    Read,
    /// The source has ended. This is the output for all the bytes that it
    /// delivered.
    Finished(Vec<u8>),
}

/// A hasher at work on a byte source, with the block that the next read
/// fills.
pub struct DigestReader<D> {
    hasher: D,
    block: [u8; 1024],
}

impl<D: Input> View for DigestReader<D> {
    type V = Seq<u8>;

    /// The bytes that the source has delivered so far.
    closed spec fn view(&self) -> Seq<u8> {
        self.hasher@
    }
}

impl<D: Input> DigestReader<D> {
    /// The content of the block.
    pub closed spec fn spec_block(&self) -> Seq<u8> {
        self.block@
    }

    /// Puts `hasher` to work on a source, with a block of zero bytes. What
    /// the hasher has absorbed before counts as delivered.
    pub fn new(hasher: D) -> (reader: Self)
        ensures
            reader@ == hasher@,
            reader.spec_block() == Seq::new(BLOCK_SIZE as nat, |i: int| 0u8),
    {
        let block = [0u8; 1024];
        proof {
            assert(block == vstd::array::spec_array_fill_for_copy_type::<u8, 1024>(0u8));
            assert(block@ =~= Seq::new(BLOCK_SIZE as nat, |i: int| 0u8));
        }
        DigestReader { hasher, block }
    }

    /// The block that the next read fills, from its start.
    pub fn block(&mut self) -> (block: &mut [u8; 1024])
        ensures
            block@ == old(self).spec_block(),
            final(self).spec_block() == final(block)@,
            final(self)@ == old(self)@,
    {
        &mut self.block
    }
}

impl<D: Digest> DigestReader<D> {
    /// Takes the outcome of a read into the block: the number of bytes that
    /// the source put there, or its failure.
    pub fn advance<E>(&mut self, read: Result<usize, E>) -> (next: Result<Step, E>)
        requires
            read matches Ok(n) ==> n <= BLOCK_SIZE,
        ensures
            match read {
                Ok(n) => if n == 0 {
                    &&& next matches Ok(Step::Finished(out))
                    &&& out@ == D::spec_output(old(self)@)
                    &&& out@.len() == D::OUTPUT_SIZE
                    &&& final(self)@ == Seq::<u8>::empty()
                    &&& final(self).spec_block() == old(self).spec_block()
                } else {
                    &&& next matches Ok(Step::Read)
                    &&& final(self)@ == old(self)@ + old(self).spec_block().subrange(0, n as int)
                    &&& final(self).spec_block() == old(self).spec_block()
                },
                Err(failure) => {
                    &&& next == Err::<Step, E>(failure)
                    &&& *final(self) == *old(self)
                },
            },
    {
        let bytes_read = read?;
        let delivered = vstd::slice::slice_subrange(self.block.as_slice(), 0, bytes_read);
        self.hasher.input(delivered);
        if bytes_read == 0 {
            assert(self.hasher@ =~= old(self).hasher@);
            Ok(Step::Finished(self.hasher.result()))
        } else {
            Ok(Step::Read)
        }
    }
}

/// A source read to its end, in whatever blocks it came: a reader that
/// started with nothing delivered and took the blocks in turn gives, when the
/// source ends, the output that `digest` gives for the blocks joined.
/// `states[i]` is the reader before block `i`, and the last state the reader
/// that the end of the source finds.
pub proof fn blocks_are_the_whole<D: Digest>(states: Seq<DigestReader<D>>, blocks: Seq<Seq<u8>>)
    requires
        states.len() == blocks.len() + 1,
        states[0]@ == Seq::<u8>::empty(),
        forall|i: int|
            0 <= i < blocks.len() ==> states[i + 1]@ == states[i]@ + #[trigger] blocks[i],
    ensures
        states.last()@ == blocks.flatten(),
        D::spec_output(states.last()@) == D::spec_output(blocks.flatten()),
{
    messages_add_up(Seq::new(states.len(), |i: int| states[i]@), blocks);
}

} // verus!
