//! Client-to-server Handshake packet (protocol 763, MC 1.20.1).

use vstd::prelude::*;

use crate::codec::Wire;
use crate::containers::lemma_write_step;
use crate::error::DecodeError;
use crate::packet::Packet;
use crate::state::{ClientIntent, State};
use crate::varint::VarInt;

verus! {

/// 0x00 - Handshake.
///
/// `protocol_version` is 763 in Minecraft 1.20.1. `server_address` is the host
/// name or address the client connected to. `server_port` is an unsigned
/// big-endian short. `next_state` is a [`ClientIntent`], not a [`State`].
#[derive(Debug, Clone, PartialEq)]
pub struct C2SHandshake {
    pub protocol_version: VarInt,
    pub server_address: String,
    pub server_port: u16,
    pub next_state: ClientIntent,
}

/// The fields of [`C2SHandshake`], in order.
impl Wire for C2SHandshake {
    type Model = <(VarInt, (String, (u16, (ClientIntent, ())))) as Wire>::Model;

    open spec fn model(&self) -> Self::Model {
        (self.protocol_version.model(), (self.server_address.model(), (self.server_port.model(), (self.next_state.model(), ()))))
    }

    open spec fn encodable(m: Self::Model) -> bool {
        <(VarInt, (String, (u16, (ClientIntent, ())))) as Wire>::encodable(m)
    }

    open spec fn greedy() -> bool {
        <(VarInt, (String, (u16, (ClientIntent, ())))) as Wire>::greedy()
    }

    open spec fn decodable() -> bool {
        <(VarInt, (String, (u16, (ClientIntent, ())))) as Wire>::decodable()
    }

    closed spec fn spec_write(m: Self::Model) -> Seq<u8> {
        <(VarInt, (String, (u16, (ClientIntent, ())))) as Wire>::spec_write(m)
    }

    closed spec fn spec_read(s: Seq<u8>) -> Result<(Self::Model, nat), DecodeError> {
        <(VarInt, (String, (u16, (ClientIntent, ())))) as Wire>::spec_read(s)
    }

    fn write(&self, out: &mut Vec<u8>) {
        let ghost o0 = out@;
        self.protocol_version.write(out);
        proof { lemma_write_step::<VarInt, (String, (u16, (ClientIntent, ())))>(o0, out@, self.protocol_version.model(), (self.server_address.model(), (self.server_port.model(), (self.next_state.model(), ())))); }
        let ghost o1 = out@;
        self.server_address.write(out);
        proof { lemma_write_step::<String, (u16, (ClientIntent, ()))>(o1, out@, self.server_address.model(), (self.server_port.model(), (self.next_state.model(), ()))); }
        let ghost o2 = out@;
        self.server_port.write(out);
        proof { lemma_write_step::<u16, (ClientIntent, ())>(o2, out@, self.server_port.model(), (self.next_state.model(), ())); }
        let ghost o3 = out@;
        self.next_state.write(out);
        proof { lemma_write_step::<ClientIntent, ()>(o3, out@, self.next_state.model(), ()); }
        let ghost o4 = out@;
        assert(o4 + Seq::<u8>::empty() =~= o4);
    }

    fn read(buf: &[u8], pos: usize) -> (r: Result<(C2SHandshake, usize), DecodeError>) {
        match <(VarInt, (String, (u16, (ClientIntent, ())))) as Wire>::read(buf, pos) {
            Ok(((protocol_version, (server_address, (server_port, (next_state, ())))), end)) => Ok((C2SHandshake { protocol_version, server_address, server_port, next_state }, end)),
            Err(e) => Err(e),
        }
    }

    proof fn lemma_read_len(s: Seq<u8>) {
        <(VarInt, (String, (u16, (ClientIntent, ())))) as Wire>::lemma_read_len(s);
    }

    proof fn lemma_roundtrip(m: Self::Model, rest: Seq<u8>) {
        <(VarInt, (String, (u16, (ClientIntent, ())))) as Wire>::lemma_roundtrip(m, rest);
    }
}

impl Packet for C2SHandshake {
    open spec fn spec_id() -> i32 {
        0x00
    }

    open spec fn spec_state() -> State {
        State::Handshake
    }

    fn id(&self) -> (r: VarInt) {
        VarInt(0x00)
    }

    fn state(&self) -> (r: State) {
        State::Handshake
    }
}

} // verus!
