//! Packets: wire values with an id and the connection state they belong to.

use vstd::prelude::*;

use crate::codec::Wire;
use crate::error::DecodeError;
use crate::state::State;
use crate::codec::lemma_skip_prefix;
use crate::varint::{lemma_varint_roundtrip, spec_varint_encode, write_varint, VarInt};

verus! {

/// A packet. On the wire it is its id as a `VarInt`, then its fields.
pub trait Packet: Wire {
    /// The packet id.
    spec fn spec_id() -> i32;

    /// The state in which the id stands for this packet.
    spec fn spec_state() -> State;

    /// The packet id.
    fn id(&self) -> (r: VarInt)
        ensures
            r.0 == Self::spec_id(),
    ;

    /// The state in which the id stands for this packet.
    fn state(&self) -> (r: State)
        ensures
            r == Self::spec_state(),
    ;

    /// Appends the id, then the fields.
    fn encode(&self, out: &mut Vec<u8>)
        requires
            Self::encodable(self.model()),
        ensures
            final(out)@ == old(out)@ + spec_varint_encode(Self::spec_id()) + Self::spec_write(
                self.model(),
            ),
    {
        let id = self.id();
        write_varint(id.0, out);
        self.write(out);
    }
}

/// Reading the id in front of a packet's bytes gives the id and leaves the
/// packet's bytes.
pub proof fn lemma_header_roundtrip(id: i32, body: Seq<u8>, rest: Seq<u8>)
    ensures
        <VarInt as Wire>::spec_read(spec_varint_encode(id) + body + rest) == Ok::<(i32, nat), DecodeError>(
            (id, spec_varint_encode(id).len()),
        ),
        (spec_varint_encode(id) + body + rest).skip(spec_varint_encode(id).len() as int) == body
            + rest,
{
    let h = spec_varint_encode(id);
    assert(h + body + rest == h + (body + rest));
    lemma_varint_roundtrip(id, body + rest);
    lemma_skip_prefix(h, body + rest);
}

/// A chat component, kept as its JSON text; it travels as a string.
#[derive(Debug, Clone, PartialEq)]
pub struct Chat(pub String);

impl Chat {
    /// The component whose JSON text is `json`.
    pub fn from_json(json: String) -> (r: Chat)
        ensures
            r.0@ == json@,
    {
        Chat(json)
    }
}

/// A chat component on the wire: its JSON text as a string.
impl Wire for Chat {
    type Model = Seq<char>;

    open spec fn model(&self) -> Seq<char> {
        self.0@
    }

    open spec fn encodable(m: Seq<char>) -> bool {
        <String as Wire>::encodable(m)
    }

    open spec fn greedy() -> bool {
        false
    }

    open spec fn decodable() -> bool {
        true
    }

    open spec fn spec_write(m: Seq<char>) -> Seq<u8> {
        <String as Wire>::spec_write(m)
    }

    open spec fn spec_read(s: Seq<u8>) -> Result<(Seq<char>, nat), DecodeError> {
        <String as Wire>::spec_read(s)
    }

    fn write(&self, out: &mut Vec<u8>) {
        self.0.write(out);
    }

    fn read(buf: &[u8], pos: usize) -> (r: Result<(Chat, usize), DecodeError>) {
        match <String as Wire>::read(buf, pos) {
            Ok((s, end)) => Ok((Chat(s), end)),
            Err(e) => Err(e),
        }
    }

    proof fn lemma_read_len(s: Seq<u8>) {
        <String as Wire>::lemma_read_len(s);
    }

    proof fn lemma_roundtrip(m: Seq<char>, rest: Seq<u8>) {
        <String as Wire>::lemma_roundtrip(m, rest);
    }
}

} // verus!
