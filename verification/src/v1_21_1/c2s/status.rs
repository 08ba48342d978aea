//! Client-to-server Status packets (1.21.1).

use vstd::prelude::*;

use crate::codec::Wire;
use crate::containers::lemma_write_step;
use crate::error::DecodeError;
use crate::packet::Packet;
use crate::state::State;
use crate::varint::VarInt;

verus! {

/// 0x00 - Status Request; no fields.
#[derive(Debug, Clone, PartialEq)]
pub struct C2SStatusRequest {}

/// The fields of [`C2SStatusRequest`], in order.
impl Wire for C2SStatusRequest {
    type Model = <() as Wire>::Model;

    open spec fn model(&self) -> Self::Model {
        ()
    }

    open spec fn encodable(m: Self::Model) -> bool {
        <() as Wire>::encodable(m)
    }

    open spec fn greedy() -> bool {
        <() as Wire>::greedy()
    }

    open spec fn decodable() -> bool {
        <() as Wire>::decodable()
    }

    closed spec fn spec_write(m: Self::Model) -> Seq<u8> {
        <() as Wire>::spec_write(m)
    }

    closed spec fn spec_read(s: Seq<u8>) -> Result<(Self::Model, nat), DecodeError> {
        <() as Wire>::spec_read(s)
    }

    fn write(&self, out: &mut Vec<u8>) {
        let ghost o0 = out@;

        assert(o0 + Seq::<u8>::empty() =~= o0);
    }

    fn read(buf: &[u8], pos: usize) -> (r: Result<(C2SStatusRequest, usize), DecodeError>) {
        match <() as Wire>::read(buf, pos) {
            Ok(((), end)) => Ok((C2SStatusRequest {}, end)),
            Err(e) => Err(e),
        }
    }

    proof fn lemma_read_len(s: Seq<u8>) {
        <() as Wire>::lemma_read_len(s);
    }

    proof fn lemma_roundtrip(m: Self::Model, rest: Seq<u8>) {
        <() as Wire>::lemma_roundtrip(m, rest);
    }
}

impl Packet for C2SStatusRequest {
    open spec fn spec_id() -> i32 {
        0x00
    }

    open spec fn spec_state() -> State {
        State::Status
    }

    fn id(&self) -> (r: VarInt) {
        VarInt(0x00)
    }

    fn state(&self) -> (r: State) {
        State::Status
    }
}

/// 0x01 - Ping; the payload is echoed back in the Pong.
#[derive(Debug, Clone, PartialEq)]
pub struct C2SPing {
    pub payload: i64,
}

/// The fields of [`C2SPing`], in order.
impl Wire for C2SPing {
    type Model = <(i64, ()) as Wire>::Model;

    open spec fn model(&self) -> Self::Model {
        (self.payload.model(), ())
    }

    open spec fn encodable(m: Self::Model) -> bool {
        <(i64, ()) as Wire>::encodable(m)
    }

    open spec fn greedy() -> bool {
        <(i64, ()) as Wire>::greedy()
    }

    open spec fn decodable() -> bool {
        <(i64, ()) as Wire>::decodable()
    }

    closed spec fn spec_write(m: Self::Model) -> Seq<u8> {
        <(i64, ()) as Wire>::spec_write(m)
    }

    closed spec fn spec_read(s: Seq<u8>) -> Result<(Self::Model, nat), DecodeError> {
        <(i64, ()) as Wire>::spec_read(s)
    }

    fn write(&self, out: &mut Vec<u8>) {
        let ghost o0 = out@;
        self.payload.write(out);
        proof { lemma_write_step::<i64, ()>(o0, out@, self.payload.model(), ()); }
        let ghost o1 = out@;
        assert(o1 + Seq::<u8>::empty() =~= o1);
    }

    fn read(buf: &[u8], pos: usize) -> (r: Result<(C2SPing, usize), DecodeError>) {
        match <(i64, ()) as Wire>::read(buf, pos) {
            Ok(((payload, ()), end)) => Ok((C2SPing { payload }, end)),
            Err(e) => Err(e),
        }
    }

    proof fn lemma_read_len(s: Seq<u8>) {
        <(i64, ()) as Wire>::lemma_read_len(s);
    }

    proof fn lemma_roundtrip(m: Self::Model, rest: Seq<u8>) {
        <(i64, ()) as Wire>::lemma_roundtrip(m, rest);
    }
}

impl Packet for C2SPing {
    open spec fn spec_id() -> i32 {
        0x01
    }

    open spec fn spec_state() -> State {
        State::Status
    }

    fn id(&self) -> (r: VarInt) {
        VarInt(0x01)
    }

    fn state(&self) -> (r: State) {
        State::Status
    }
}

} // verus!
