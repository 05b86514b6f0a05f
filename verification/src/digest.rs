//! The convenience interface that every complete hasher has.

use vstd::prelude::*;
use vstd::string::StringSliceAdditionalSpecFns;
use crate::capability::{FixedOutput, FreshDefault, Input};
use crate::reader::DigestReader;

verus! {

/// The interface common to hash functions: a hasher that can be made empty,
/// fed and asked for its output, with one-shot helpers built from those three
/// steps.
///
/// It is implemented for every type that has the three capabilities, and
/// cannot be implemented otherwise, so each contract below holds of every
/// hasher.
pub trait Digest: Input + FixedOutput + FreshDefault {
    /// Creates a hasher that has absorbed nothing: a default value of the
    /// type.
    fn new() -> (hasher: Self)
        ensures
            call_ensures(<Self as Default>::default, (), hasher),
            hasher@ == Seq::<u8>::empty(),
    {
        let hasher = Self::default();
        proof {
            Self::default_is_fresh(hasher);
        }
        hasher
    }

    /// Appends `buf` to the message. May be called any number of times, to
    /// hash a message that arrives in pieces.
    fn input(&mut self, buf: &[u8])
        ensures
            final(self)@ == old(self)@ + buf@,
    {
        self.process(buf);
    }

    /// Gives the output for the message absorbed so far and resets the
    /// hasher to the empty message.
    fn result(&mut self) -> (out: Vec<u8>)
        ensures
            out@ == Self::spec_output(old(self)@),
            out@.len() == Self::OUTPUT_SIZE,
            final(self)@ == Seq::<u8>::empty(),
    {
        proof {
            Self::output_is_fixed_size(self@);
        }
        self.fixed_result()
    }

    /// The length in bytes of every output of this hasher type.
    fn output_size() -> (size: usize)
        ensures
            size == Self::OUTPUT_SIZE,
    {
        Self::OUTPUT_SIZE
    }

    /// Hashes `data` in one step: makes a hasher, feeds it `data` once and
    /// returns its output.
    fn digest(data: &[u8]) -> (out: Vec<u8>)
        ensures
            out@ == Self::spec_output(data@),
            out@.len() == Self::OUTPUT_SIZE,
    {
        let mut hasher = Self::new();
        hasher.input(data);
        assert(hasher@ =~= data@);
        hasher.result()
    }

    /// Hashes the UTF-8 encoding of `text` in one step.
    fn input_str(text: &str) -> (out: Vec<u8>)
        ensures
            out@ == Self::spec_output(text.spec_bytes()),
            out@.len() == Self::OUTPUT_SIZE,
    {
        Self::digest(text.as_bytes())
    }

    /// Starts hashing a byte source in blocks of 1 KB. The reads are the
    /// caller's: see `DigestReader`.
    fn digest_reader() -> (reader: DigestReader<Self>)
        ensures
            reader@ == Seq::<u8>::empty(),
    {
        DigestReader::new(Self::new())
    }
}

impl<D: Input + FixedOutput + FreshDefault> Digest for D {
}

/// One-shot hashing is the three steps in a row: what `digest` returns for
/// `data` is what `result` returns for a hasher that `new` made and that
/// `input` was called on once, with `data`.
pub proof fn digest_is_new_input_result<D: Digest>(made: D, fed: D, data: Seq<u8>)
    requires
        made@ == Seq::<u8>::empty(),
        fed@ == made@ + data,
    ensures
        D::spec_output(data) == D::spec_output(fed@),
{
    assert(fed@ =~= data);
}

/// The output of `result` has as many bytes as `output_size` says, in
/// whatever state the hasher is.
pub proof fn result_has_output_size<D: Digest>(hasher: D)
    ensures
        D::spec_output(hasher@).len() == D::OUTPUT_SIZE,
{
    D::output_is_fixed_size(hasher@);
}

/// Two calls of `input`, with `a` and then with `b`, leave a hasher as one
/// call with `a + b` does.
pub proof fn two_inputs_are_one<D: Digest>(
    before: D,
    between: D,
    after: D,
    at_once: D,
    a: Seq<u8>,
    b: Seq<u8>,
)
    requires
        between@ == before@ + a,
        after@ == between@ + b,
        at_once@ == before@ + (a + b),
    ensures
        after@ == at_once@,
        D::spec_output(after@) == D::spec_output(at_once@),
{
    assert(after@ =~= at_once@);
}

/// Streaming equivalence: a new hasher fed `a` and then `b` gives the output
/// that `digest` gives for `a + b`.
pub proof fn streaming_equivalence<D: Digest>(made: D, first: D, second: D, a: Seq<u8>, b: Seq<u8>)
    requires
        made@ == Seq::<u8>::empty(),
        first@ == made@ + a,
        second@ == first@ + b,
    ensures
        D::spec_output(second@) == D::spec_output(a + b),
{
    assert(second@ =~= a + b);
}

/// Messages that start empty and grow by one piece at a time end as the
/// pieces joined: if `messages[i + 1]` is `messages[i]` with `pieces[i]`
/// behind it, the last message is all the pieces in a row.
pub proof fn messages_add_up(messages: Seq<Seq<u8>>, pieces: Seq<Seq<u8>>)
    requires
        messages.len() == pieces.len() + 1,
        messages[0] == Seq::<u8>::empty(),
        forall|i: int|
            0 <= i < pieces.len() ==> messages[i + 1] == messages[i] + #[trigger] pieces[i],
    ensures
        messages.last() == pieces.flatten(),
    decreases pieces.len(),
{
    pieces.lemma_flatten_and_flatten_alt_are_equivalent();
    if pieces.len() == 0 {
        assert(messages.last() =~= pieces.flatten_alt());
    } else {
        let earlier = pieces.drop_last();
        messages_add_up(messages.drop_last(), earlier);
        earlier.lemma_flatten_and_flatten_alt_are_equivalent();
        assert(messages.drop_last().last() == messages[pieces.len() - 1]);
        assert(pieces[pieces.len() - 1] == pieces.last());
        assert(messages.last() =~= pieces.flatten_alt());
    }
}

/// A message in any number of pieces: a new hasher fed the pieces in turn
/// gives the output that `digest` gives for the pieces joined.
/// `states[i]` is the hasher before piece `i`, and the last state the hasher
/// after all of them.
pub proof fn pieces_are_the_whole<D: Digest>(states: Seq<D>, pieces: Seq<Seq<u8>>)
    requires
        states.len() == pieces.len() + 1,
        states[0]@ == Seq::<u8>::empty(),
        forall|i: int|
            0 <= i < pieces.len() ==> states[i + 1]@ == states[i]@ + #[trigger] pieces[i],
    ensures
        states.last()@ == pieces.flatten(),
        D::spec_output(states.last()@) == D::spec_output(pieces.flatten()),
{
    messages_add_up(Seq::new(states.len(), |i: int| states[i]@), pieces);
}

/// The empty message: what `digest` returns for no bytes is what `result`
/// returns for a hasher that `new` made and that was never fed.
pub proof fn digest_of_nothing_is_result_of_new<D: Digest>(made: D)
    requires
        made@ == Seq::<u8>::empty(),
    ensures
        D::spec_output(Seq::<u8>::empty()) == D::spec_output(made@),
{
}

} // verus!
