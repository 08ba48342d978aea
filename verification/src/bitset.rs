//! Minecraft `BitSet` wire format: a `VarInt` count of 64-bit slots followed
//! by the slots, big-endian. The empty `BitSet` is the single byte `0x00`.

use vstd::prelude::*;

use crate::codec::Wire;
use crate::error::DecodeError;

verus! {

/// A Minecraft wire-format `BitSet`.
#[derive(Debug, Clone, Default, PartialEq, Eq)]
pub struct BitSet {
    data: Vec<i64>,
}

impl BitSet {
    /// The slots of this set.
    pub closed spec fn slots(&self) -> Seq<i64> {
        self.data@
    }

    /// An empty `BitSet` (encodes as a single `0x00` byte).
    pub fn empty() -> (r: BitSet)
        ensures
            r.slots() == Seq::<i64>::empty(),
    {
        BitSet { data: Vec::new() }
    }

    /// Builds a `BitSet` from raw `i64` slots.
    pub fn from_slots(slots: Vec<i64>) -> (r: BitSet)
        ensures
            r.slots() == slots@,
    {
        BitSet { data: slots }
    }
}

/// A `BitSet` travels as its list of slots.
impl Wire for BitSet {
    type Model = Seq<i64>;

    open spec fn model(&self) -> Seq<i64> {
        self.slots()
    }

    open spec fn encodable(m: Seq<i64>) -> bool {
        <Vec<i64> as Wire>::encodable(m)
    }

    open spec fn greedy() -> bool {
        false
    }

    open spec fn decodable() -> bool {
        <Vec<i64> as Wire>::decodable()
    }

    open spec fn spec_write(m: Seq<i64>) -> Seq<u8> {
        <Vec<i64> as Wire>::spec_write(m)
    }

    open spec fn spec_read(s: Seq<u8>) -> Result<(Seq<i64>, nat), DecodeError> {
        <Vec<i64> as Wire>::spec_read(s)
    }

    fn write(&self, out: &mut Vec<u8>) {
        assert(self.data@.map_values(|x: i64| x.model()) =~= self.data@);
        self.data.write(out);
    }

    fn read(buf: &[u8], pos: usize) -> (r: Result<(BitSet, usize), DecodeError>) {
        match <Vec<i64> as Wire>::read(buf, pos) {
            Ok((data, end)) => {
                assert(data@.map_values(|x: i64| x.model()) =~= data@);
                Ok((BitSet { data }, end))
            },
            Err(e) => Err(e),
        }
    }

    proof fn lemma_read_len(s: Seq<u8>) {
        <Vec<i64> as Wire>::lemma_read_len(s);
    }

    proof fn lemma_roundtrip(m: Seq<i64>, rest: Seq<u8>) {
        <Vec<i64> as Wire>::lemma_roundtrip(m, rest);
    }
}

} // verus!
