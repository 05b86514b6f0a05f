//! A four-byte XOR checksum, the smallest hasher with all three capabilities.
//!
//! It is no cryptographic hash. It shows what a hasher has to state and
//! prove to get the `Digest` interface, and gives the interface something to
//! run on.

use vstd::prelude::*;
use crate::capability::{FixedOutput, FreshDefault, Input};

verus! {

/// The checksum of `message`: four bytes, of which byte `j` is the XOR of
/// the bytes of `message` at the positions `j`, `j + 4`, `j + 8` and so on.
/// The checksum of the empty message is four zero bytes.
pub open spec fn fold(message: Seq<u8>) -> Seq<u8>
    decreases message.len(),
{
    if message.len() == 0 {
        seq![0u8, 0u8, 0u8, 0u8]
    } else {
        let rest = fold(message.drop_last());
        let lane = (message.len() - 1) % 4;
        rest.update(lane, rest[lane] ^ message.last())
    }
}

/// A checksum has four bytes.
pub proof fn fold_has_four_bytes(message: Seq<u8>)
    ensures
        fold(message).len() == 4,
    decreases message.len(),
{
    if message.len() > 0 {
        fold_has_four_bytes(message.drop_last());
    }
}

/// One more byte changes one lane: the lane that the length of the message
/// before it selects.
pub proof fn fold_push(message: Seq<u8>, byte: u8)
    ensures
        fold(message.push(byte)) == fold(message).update(
            message.len() as int % 4,
            fold(message)[message.len() as int % 4] ^ byte,
        ),
{
    assert(message.push(byte).drop_last() =~= message);
}

/// The output size of `XorFold` is the length of a checksum.
pub proof fn output_size_is_four()
    ensures
        XorFold::OUTPUT_SIZE == 4,
{
}

/// The state of a checksum in progress.
pub struct XorFold {
    lanes: [u8; 4],
    next: usize,
    absorbed: Ghost<Seq<u8>>,
}

impl XorFold {
    /// The lanes hold the checksum of the message absorbed so far, and `next`
    /// is the lane of the byte that comes next.
    #[verifier::type_invariant]
    spec fn well_formed(self) -> bool {
        &&& self.next == self.absorbed@.len() % 4
        &&& self.lanes@ == fold(self.absorbed@)
    }
}

impl View for XorFold {
    type V = Seq<u8>;

    closed spec fn view(&self) -> Seq<u8> {
        self.absorbed@
    }
}

impl Default for XorFold {
    fn default() -> (hasher: Self)
        ensures
            hasher@ == Seq::<u8>::empty(),
    {
        XorFold { lanes: [0u8, 0u8, 0u8, 0u8], next: 0, absorbed: Ghost(Seq::empty()) }
    }
}

impl FreshDefault for XorFold {
    proof fn default_is_fresh(hasher: Self) {
    }
}

impl Input for XorFold {
    fn process(&mut self, input: &[u8]) {
        proof {
            use_type_invariant(&*self);
        }
        let ghost before = self.absorbed@;
        let mut lanes = self.lanes;
        let mut next = self.next;
        let mut done: usize = 0;
        while done < input.len()
            invariant
                done <= input.len(),
                next == (before.len() + done) % 4,
                lanes@ == fold(before + input@.subrange(0, done as int)),
            decreases input.len() - done,
        {
            let ghost seen = before + input@.subrange(0, done as int);
            proof {
                fold_push(seen, input@[done as int]);
                assert(seen.push(input@[done as int]) =~= before + input@.subrange(
                    0,
                    done + 1,
                ));
            }
            let mixed = lanes[next] ^ input[done];
            lanes[next] = mixed;
            next = if next == 3 {
                0
            } else {
                next + 1
            };
            done = done + 1;
        }
        assert(input@.subrange(0, done as int) =~= input@);
        *self = XorFold { lanes, next, absorbed: Ghost(before + input@) };
    }
}

impl FixedOutput for XorFold {
    const OUTPUT_SIZE: usize = 4;

    open spec fn spec_output(message: Seq<u8>) -> Seq<u8> {
        fold(message)
    }

    proof fn output_is_fixed_size(message: Seq<u8>) {
        fold_has_four_bytes(message);
    }

    fn fixed_result(&mut self) -> (out: Vec<u8>) {
        proof {
            use_type_invariant(&*self);
        }
        let mut out: Vec<u8> = Vec::new();
        out.push(self.lanes[0]);
        out.push(self.lanes[1]);
        out.push(self.lanes[2]);
        out.push(self.lanes[3]);
        assert(out@ =~= self.lanes@);
        *self = XorFold::default();
        out
    }
}

} // verus!
