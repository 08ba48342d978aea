//! Connection states and the handshake intention.

use vstd::prelude::*;

use crate::codec::Wire;
use crate::error::DecodeError;
use crate::varint::{
    lemma_varint_read_len, lemma_varint_roundtrip, read_varint, spec_varint_encode,
    spec_varint_read, write_varint, VarIntRead,
};

verus! {

/// The state of a connection.
#[derive(Debug, Clone, Copy, PartialEq, Eq, Hash, Structural)]
pub enum State {
    Handshake,
    Status,
    Login,
    /// Introduced in 1.20.2. Entered after `LoginSuccess` once the client
    /// sends `Login Acknowledged`, never through the handshake.
    Configuration,
    Play,
}

/// The `next_state` / `intention` field of the handshake packet: `1` =
/// Status, `2` = Login, `3` = Transfer on the wire. Kept apart from [`State`]
/// so that the Configuration state does not collide with the Transfer value.
#[derive(Debug, Clone, Copy, PartialEq, Eq, Hash, Structural)]
pub enum ClientIntent {
    Status,
    Login,
    Transfer,
}

/// The wire value of an intention.
pub open spec fn intent_value(i: ClientIntent) -> i32 {
    match i {
        ClientIntent::Status => 1,
        ClientIntent::Login => 2,
        ClientIntent::Transfer => 3,
    }
}

/// The intention a wire value stands for.
pub open spec fn intent_of_value(v: i32) -> Option<ClientIntent> {
    if v == 1 {
        Some(ClientIntent::Status)
    } else if v == 2 {
        Some(ClientIntent::Login)
    } else if v == 3 {
        Some(ClientIntent::Transfer)
    } else {
        None
    }
}

impl ClientIntent {
    /// The wire value of this intention.
    pub fn value(self) -> (r: i32)
        ensures
            r == intent_value(self),
    {
        match self {
            ClientIntent::Status => 1,
            ClientIntent::Login => 2,
            ClientIntent::Transfer => 3,
        }
    }
}

/// An intention travels as a `VarInt`; other values than 1, 2 and 3 are
/// refused.
impl Wire for ClientIntent {
    type Model = ClientIntent;

    open spec fn model(&self) -> ClientIntent {
        *self
    }

    open spec fn encodable(m: ClientIntent) -> bool {
        true
    }

    open spec fn greedy() -> bool {
        false
    }

    open spec fn decodable() -> bool {
        true
    }

    open spec fn spec_write(m: ClientIntent) -> Seq<u8> {
        spec_varint_encode(intent_value(m))
    }

    open spec fn spec_read(s: Seq<u8>) -> Result<(ClientIntent, nat), DecodeError> {
        match spec_varint_read(s) {
            VarIntRead::Value(v, n) => match intent_of_value(v) {
                Some(i) => Ok((i, n)),
                None => Err(DecodeError::InvalidClientIntent),
            },
            VarIntRead::Truncated => Err(DecodeError::UnexpectedEof),
            VarIntRead::TooLong => Err(DecodeError::VarIntTooLong),
        }
    }

    fn write(&self, out: &mut Vec<u8>) {
        write_varint(self.value(), out);
    }

    fn read(buf: &[u8], pos: usize) -> (r: Result<(ClientIntent, usize), DecodeError>) {
        let (v, end) = match read_varint(buf, pos) {
            Ok(x) => x,
            Err(e) => return Err(e),
        };
        proof {
            lemma_varint_read_len(buf@.skip(pos as int));
        }
        if v == 1 {
            Ok((ClientIntent::Status, end))
        } else if v == 2 {
            Ok((ClientIntent::Login, end))
        } else if v == 3 {
            Ok((ClientIntent::Transfer, end))
        } else {
            Err(DecodeError::InvalidClientIntent)
        }
    }

    proof fn lemma_read_len(s: Seq<u8>) {
        lemma_varint_read_len(s);
    }

    proof fn lemma_roundtrip(m: ClientIntent, rest: Seq<u8>) {
        lemma_varint_roundtrip(intent_value(m), rest);
    }
}

/// Reading an intention from the encoding of any `VarInt` value `n`
/// (whatever follows it) gives Status for 1, Login for 2 and Transfer for
/// 3, consuming exactly the `VarInt`, and refuses every other value.
pub proof fn lemma_intent_read_of_value(n: i32, rest: Seq<u8>)
    ensures
        <ClientIntent as Wire>::spec_read(spec_varint_encode(n) + rest) == match intent_of_value(
            n,
        ) {
            Some(i) => Ok::<(ClientIntent, nat), DecodeError>((i, spec_varint_encode(n).len())),
            None => Err::<(ClientIntent, nat), DecodeError>(DecodeError::InvalidClientIntent),
        },
        intent_of_value(n) is Some <==> 1 <= n <= 3,
{
    lemma_varint_roundtrip(n, rest);
}

/// Why a handshake intention leads to no state.
#[derive(Debug, Clone, Copy, PartialEq, Eq, Structural)]
pub enum IntentError {
    /// Transfer is not supported: this server is never a transfer target.
    TransferUnsupported,
}

/// Maps a handshake [`ClientIntent`] onto a connection [`State`]: `Status`
/// to [`State::Status`], `Login` to [`State::Login`]; `Transfer` is refused.
pub fn intent_to_state(intent: ClientIntent) -> (r: Result<State, IntentError>)
    ensures
        intent == ClientIntent::Status ==> r == Ok::<State, IntentError>(State::Status),
        intent == ClientIntent::Login ==> r == Ok::<State, IntentError>(State::Login),
        intent == ClientIntent::Transfer ==> r == Err::<State, IntentError>(
            IntentError::TransferUnsupported,
        ),
{
    match intent {
        ClientIntent::Status => Ok(State::Status),
        ClientIntent::Login => Ok(State::Login),
        ClientIntent::Transfer => Err(IntentError::TransferUnsupported),
    }
}

} // verus!
