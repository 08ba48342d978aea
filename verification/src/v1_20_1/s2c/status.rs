//! Server-to-client Status packets (1.20.1).

use vstd::prelude::*;

use crate::codec::Wire;
use crate::containers::lemma_write_step;
use crate::error::DecodeError;
use crate::packet::Packet;
use crate::state::State;
use crate::varint::VarInt;

verus! {

/// 0x00 - Status Response: the JSON status document.
#[derive(Debug, Clone, PartialEq)]
pub struct S2CStatusResponse {
    pub json_response: String,
}

/// The fields of [`S2CStatusResponse`], in order.
impl Wire for S2CStatusResponse {
    type Model = <(String, ()) as Wire>::Model;

    open spec fn model(&self) -> Self::Model {
        (self.json_response.model(), ())
    }

    open spec fn encodable(m: Self::Model) -> bool {
        <(String, ()) as Wire>::encodable(m)
    }

    open spec fn greedy() -> bool {
        <(String, ()) as Wire>::greedy()
    }

    open spec fn decodable() -> bool {
        <(String, ()) as Wire>::decodable()
    }

    closed spec fn spec_write(m: Self::Model) -> Seq<u8> {
        <(String, ()) as Wire>::spec_write(m)
    }

    closed spec fn spec_read(s: Seq<u8>) -> Result<(Self::Model, nat), DecodeError> {
        <(String, ()) as Wire>::spec_read(s)
    }

    fn write(&self, out: &mut Vec<u8>) {
        let ghost o0 = out@;
        self.json_response.write(out);
        proof { lemma_write_step::<String, ()>(o0, out@, self.json_response.model(), ()); }
        let ghost o1 = out@;
        assert(o1 + Seq::<u8>::empty() =~= o1);
    }

    fn read(buf: &[u8], pos: usize) -> (r: Result<(S2CStatusResponse, usize), DecodeError>) {
        match <(String, ()) as Wire>::read(buf, pos) {
            Ok(((json_response, ()), end)) => Ok((S2CStatusResponse { json_response }, end)),
            Err(e) => Err(e),
        }
    }

    proof fn lemma_read_len(s: Seq<u8>) {
        <(String, ()) as Wire>::lemma_read_len(s);
    }

    proof fn lemma_roundtrip(m: Self::Model, rest: Seq<u8>) {
        <(String, ()) as Wire>::lemma_roundtrip(m, rest);
    }
}

impl Packet for S2CStatusResponse {
    open spec fn spec_id() -> i32 {
        0x00
    }

    open spec fn spec_state() -> State {
        State::Status
    }

    fn id(&self) -> (r: VarInt) {
        VarInt(0x00)
    }

    fn state(&self) -> (r: State) {
        State::Status
    }
}

/// 0x01 - Pong: echoes the Ping payload.
#[derive(Debug, Clone, PartialEq)]
pub struct S2CPong {
    pub payload: i64,
}

/// The fields of [`S2CPong`], in order.
impl Wire for S2CPong {
    type Model = <(i64, ()) as Wire>::Model;

    open spec fn model(&self) -> Self::Model {
        (self.payload.model(), ())
    }

    open spec fn encodable(m: Self::Model) -> bool {
        <(i64, ()) as Wire>::encodable(m)
    }

    open spec fn greedy() -> bool {
        <(i64, ()) as Wire>::greedy()
    }

    open spec fn decodable() -> bool {
        <(i64, ()) as Wire>::decodable()
    }

    closed spec fn spec_write(m: Self::Model) -> Seq<u8> {
        <(i64, ()) as Wire>::spec_write(m)
    }

    closed spec fn spec_read(s: Seq<u8>) -> Result<(Self::Model, nat), DecodeError> {
        <(i64, ()) as Wire>::spec_read(s)
    }

    fn write(&self, out: &mut Vec<u8>) {
        let ghost o0 = out@;
        self.payload.write(out);
        proof { lemma_write_step::<i64, ()>(o0, out@, self.payload.model(), ()); }
        let ghost o1 = out@;
        assert(o1 + Seq::<u8>::empty() =~= o1);
    }

    fn read(buf: &[u8], pos: usize) -> (r: Result<(S2CPong, usize), DecodeError>) {
        match <(i64, ()) as Wire>::read(buf, pos) {
            Ok(((payload, ()), end)) => Ok((S2CPong { payload }, end)),
            Err(e) => Err(e),
        }
    }

    proof fn lemma_read_len(s: Seq<u8>) {
        <(i64, ()) as Wire>::lemma_read_len(s);
    }

    proof fn lemma_roundtrip(m: Self::Model, rest: Seq<u8>) {
        <(i64, ()) as Wire>::lemma_roundtrip(m, rest);
    }
}

impl Packet for S2CPong {
    open spec fn spec_id() -> i32 {
        0x01
    }

    open spec fn spec_state() -> State {
        State::Status
    }

    fn id(&self) -> (r: VarInt) {
        VarInt(0x01)
    }

    fn state(&self) -> (r: State) {
        State::Status
    }
}

} // verus!
