//! The capabilities a hasher offers, each a narrow trait of its own.

use vstd::prelude::*;

verus! {

/// A hasher that absorbs byte buffers one after another.
///
/// The view of a hasher is the message absorbed so far: every buffer it was
/// handed since it was made, or since it last gave its output, in the order
/// of the calls.
pub trait Input: View<V = Seq<u8>> {
    /// Appends `input` to the message. An empty `input` leaves the message as
    /// it is.
    fn process(&mut self, input: &[u8])
        ensures
            final(self)@ == old(self)@ + input@,
    ;
}

/// A hasher that turns the message it has absorbed into an output whose
/// length depends on the hasher type alone.
pub trait FixedOutput: View<V = Seq<u8>> {
    /// The length in bytes of every output of this type.
    const OUTPUT_SIZE: usize;

    /// The output that this type computes for `message`.
    spec fn spec_output(message: Seq<u8>) -> Seq<u8>;

    /// Every output has `OUTPUT_SIZE` bytes, whatever the message.
    proof fn output_is_fixed_size(message: Seq<u8>)
        ensures
            Self::spec_output(message).len() == Self::OUTPUT_SIZE,
    ;

    /// Gives the output for the message absorbed so far and starts over with
    /// the empty message.
    fn fixed_result(&mut self) -> (out: Vec<u8>)
        ensures
            out@ == Self::spec_output(old(self)@),
            final(self)@ == Seq::<u8>::empty(),
    ;
}

/// A hasher whose default value has absorbed nothing.
pub trait FreshDefault: View<V = Seq<u8>> + Default {
    /// Whatever `Default::default` can return has the empty message as its
    /// view.
    proof fn default_is_fresh(hasher: Self)
        requires
            call_ensures(<Self as Default>::default, (), hasher),
        ensures
            hasher@ == Seq::<u8>::empty(),
    ;
}

} // verus!
