//! The wire codec: how each value is laid out as bytes and read back.
//!
//! Every wire type states its layout as a spec function over its model
//! (`spec_write`), states what reading from the front of a byte sequence
//! gives (`spec_read`), and proves that reading back a written value gives
//! the value and consumes exactly its bytes.

use vstd::prelude::*;

use crate::error::DecodeError;

verus! {

/// `s.skip(a).skip(b)` is `s.skip(a + b)`.
pub proof fn lemma_skip_skip<A>(s: Seq<A>, a: int, b: int)
    requires
        0 <= a,
        0 <= b,
        a + b <= s.len(),
    ensures
        s.skip(a).skip(b) == s.skip(a + b),
{
    assert(s.skip(a).skip(b) =~= s.skip(a + b));
}

/// Skipping the bytes of a prefix leaves what followed it.
pub proof fn lemma_skip_prefix<A>(p: Seq<A>, rest: Seq<A>)
    ensures
        (p + rest).skip(p.len() as int) == rest,
{
    assert((p + rest).skip(p.len() as int) =~= rest);
}

/// A value with a wire layout.
pub trait Wire: Sized {
    /// The mathematical value that the layout is a function of.
    type Model;

    /// This value's model.
    spec fn model(&self) -> Self::Model;

    /// The models that have a layout (lengths that fit their prefixes).
    spec fn encodable(m: Self::Model) -> bool;

    /// Whether reading takes every remaining byte.
    spec fn greedy() -> bool;

    /// Whether reading back a written value works at all for this type
    /// (it does not where a greedy value is followed by more fields).
    spec fn decodable() -> bool;

    /// The bytes of `m`.
    spec fn spec_write(m: Self::Model) -> Seq<u8>;

    /// What reading from the front of `s` gives: a model and the number of
    /// bytes it took, or why it failed.
    spec fn spec_read(s: Seq<u8>) -> Result<(Self::Model, nat), DecodeError>;

    /// Appends the bytes of this value to `out`.
    fn write(&self, out: &mut Vec<u8>)
        requires
            Self::encodable(self.model()),
        ensures
            final(out)@ == old(out)@ + Self::spec_write(self.model()),
    ;

    /// Reads a value from `buf` at `pos`; on success also gives the position
    /// just past it.
    fn read(buf: &[u8], pos: usize) -> (r: Result<(Self, usize), DecodeError>)
        requires
            pos <= buf@.len(),
        ensures
            match Self::spec_read(buf@.skip(pos as int)) {
                Ok((m, n)) => r matches Ok((v, end)) && v.model() == m && end == pos + n,
                Err(e) => r == Err::<(Self, usize), DecodeError>(e),
            },
            r matches Ok((_, end)) ==> pos <= end <= buf@.len(),
    ;

    /// Reading never claims more bytes than there are.
    proof fn lemma_read_len(s: Seq<u8>)
        ensures
            Self::spec_read(s) matches Ok((_, n)) ==> n <= s.len(),
    ;

    /// Reading back the bytes of an encodable model gives the model and
    /// consumes exactly its bytes, whatever follows them (nothing may follow
    /// a greedy value).
    proof fn lemma_roundtrip(m: Self::Model, rest: Seq<u8>)
        requires
            Self::decodable(),
            Self::encodable(m),
            !Self::greedy() || rest.len() == 0,
        ensures
            Self::spec_read(Self::spec_write(m) + rest) == Ok::<(Self::Model, nat), DecodeError>(
                (m, Self::spec_write(m).len()),
            ),
    ;
}

/// Reading `n` bytes from `buf` at `pos` runs out of input.
pub open spec fn has_bytes(buf: Seq<u8>, pos: int, n: int) -> bool {
    pos + n <= buf.len()
}

} // verus!
