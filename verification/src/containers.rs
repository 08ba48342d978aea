//! Composite wire values: pairs, strings, lists, optionals, fixed byte
//! arrays and trailing raw bytes.

use vstd::prelude::*;
use vstd::string::StringSliceAdditionalSpecFns;
use vstd::utf8::{decode_utf8, encode_utf8, valid_utf8};

use crate::codec::{lemma_skip_prefix, lemma_skip_skip, Wire};
use crate::error::DecodeError;
use crate::primitives::{read_u8, spec_read_u8};
use crate::varint::{
    lemma_varint_read_len, lemma_varint_roundtrip, read_varint, spec_varint_encode,
    spec_varint_read, write_varint, VarInt, VarIntRead,
};

verus! {

broadcast use vstd::utf8::encode_utf8_valid_utf8, vstd::utf8::encode_utf8_decode_utf8;

/// Appends the bytes of `b` to `out`.
pub fn append_bytes(out: &mut Vec<u8>, b: &[u8])
    ensures
        final(out)@ == old(out)@ + b@,
{
    let ghost start = out@;
    let mut i: usize = 0;
    while i < b.len()
        invariant
            i <= b@.len(),
            out@ == start + b@.take(i as int),
        decreases b@.len() - i,
    {
        out.push(b[i]);
        assert(b@.take(i + 1) =~= b@.take(i as int).push(b@[i as int]));
        i = i + 1;
    }
    assert(b@.take(b@.len() as int) =~= b@);
}

/// Nothing: no bytes.
impl Wire for () {
    type Model = ();

    open spec fn model(&self) -> () {
        ()
    }

    open spec fn encodable(m: ()) -> bool {
        true
    }

    open spec fn greedy() -> bool {
        false
    }

    open spec fn decodable() -> bool {
        true
    }

    open spec fn spec_write(m: ()) -> Seq<u8> {
        Seq::empty()
    }

    open spec fn spec_read(s: Seq<u8>) -> Result<((), nat), DecodeError> {
        Ok(((), 0))
    }

    fn write(&self, out: &mut Vec<u8>) {
        assert(out@ =~= out@ + Seq::<u8>::empty());
    }

    fn read(buf: &[u8], pos: usize) -> (r: Result<((), usize), DecodeError>) {
        Ok(((), pos))
    }

    proof fn lemma_read_len(s: Seq<u8>) {
    }

    proof fn lemma_roundtrip(m: (), rest: Seq<u8>) {
    }
}

/// Two values back to back. Only the second may be greedy.
/// Writing `a` and then `b` after `before` gives what writing the pair does:
/// one step of writing a struct field by field.
pub proof fn lemma_write_step<A: Wire, B: Wire>(before: Seq<u8>, after: Seq<u8>, a: A::Model, b: B::Model)
    requires
        after == before + A::spec_write(a),
    ensures
        before + <(A, B) as Wire>::spec_write((a, b)) == after + B::spec_write(b),
{
    assert(before + (A::spec_write(a) + B::spec_write(b)) =~= after + B::spec_write(b));
}

impl<A: Wire, B: Wire> Wire for (A, B) {
    type Model = (A::Model, B::Model);

    open spec fn model(&self) -> (A::Model, B::Model) {
        (self.0.model(), self.1.model())
    }

    open spec fn encodable(m: (A::Model, B::Model)) -> bool {
        A::encodable(m.0) && B::encodable(m.1)
    }

    open spec fn greedy() -> bool {
        B::greedy()
    }

    open spec fn decodable() -> bool {
        A::decodable() && B::decodable() && !A::greedy()
    }

    open spec fn spec_write(m: (A::Model, B::Model)) -> Seq<u8> {
        A::spec_write(m.0) + B::spec_write(m.1)
    }

    open spec fn spec_read(s: Seq<u8>) -> Result<((A::Model, B::Model), nat), DecodeError> {
        match A::spec_read(s) {
            Ok((a, n)) => match B::spec_read(s.skip(n as int)) {
                Ok((b, k)) => Ok(((a, b), n + k)),
                Err(e) => Err(e),
            },
            Err(e) => Err(e),
        }
    }

    fn write(&self, out: &mut Vec<u8>) {
        let ghost start = out@;
        self.0.write(out);
        self.1.write(out);
        assert(out@ =~= start + Self::spec_write(self.model()));
    }

    fn read(buf: &[u8], pos: usize) -> (r: Result<((A, B), usize), DecodeError>) {
        let (a, p) = match A::read(buf, pos) {
            Ok(x) => x,
            Err(e) => return Err(e),
        };
        proof {
            lemma_skip_skip(buf@, pos as int, (p - pos) as int);
        }
        let (b, end) = match B::read(buf, p) {
            Ok(x) => x,
            Err(e) => return Err(e),
        };
        Ok(((a, b), end))
    }

    proof fn lemma_read_len(s: Seq<u8>) {
        A::lemma_read_len(s);
        if let Ok((a, n)) = A::spec_read(s) {
            B::lemma_read_len(s.skip(n as int));
        }
    }

    proof fn lemma_roundtrip(m: (A::Model, B::Model), rest: Seq<u8>) {
        let wa = A::spec_write(m.0);
        let wb = B::spec_write(m.1);
        assert(wa + wb + rest == wa + (wb + rest));
        A::lemma_roundtrip(m.0, wb + rest);
        lemma_skip_prefix(wa, wb + rest);
        B::lemma_roundtrip(m.1, rest);
    }
}

/// Calls `std::str::from_utf8`, which accepts exactly the byte sequences
/// that are valid UTF-8 and then gives a `str` over those same bytes.
#[verifier::external_body]
fn str_from_utf8(bytes: &[u8]) -> (r: Option<&str>)
    ensures
        r is Some <==> valid_utf8(bytes@),
        r matches Some(s) ==> s.spec_bytes() == bytes@,
{
    std::str::from_utf8(bytes).ok()
}

/// The bytes of a string: its UTF-8 length as a `VarInt`, then its UTF-8
/// bytes.
pub open spec fn spec_write_string(m: Seq<char>) -> Seq<u8> {
    spec_varint_encode(encode_utf8(m).len() as i32) + encode_utf8(m)
}

/// Reading a string from the front of `s`.
pub open spec fn spec_read_string(s: Seq<u8>) -> Result<(Seq<char>, nat), DecodeError> {
    match spec_varint_read(s) {
        VarIntRead::Value(n, k) => if n < 0 {
            Err(DecodeError::NegativeLength)
        } else if s.len() < k + n {
            Err(DecodeError::UnexpectedEof)
        } else if valid_utf8(s.subrange(k as int, k + n)) {
            Ok((decode_utf8(s.subrange(k as int, k + n)), (k + n) as nat))
        } else {
            Err(DecodeError::InvalidUtf8)
        },
        VarIntRead::Truncated => Err(DecodeError::UnexpectedEof),
        VarIntRead::TooLong => Err(DecodeError::VarIntTooLong),
    }
}

/// A UTF-8 string prefixed by its byte length.
impl Wire for String {
    type Model = Seq<char>;

    open spec fn model(&self) -> Seq<char> {
        self@
    }

    open spec fn encodable(m: Seq<char>) -> bool {
        encode_utf8(m).len() <= i32::MAX
    }

    open spec fn greedy() -> bool {
        false
    }

    open spec fn decodable() -> bool {
        true
    }

    open spec fn spec_write(m: Seq<char>) -> Seq<u8> {
        spec_write_string(m)
    }

    open spec fn spec_read(s: Seq<u8>) -> Result<(Seq<char>, nat), DecodeError> {
        spec_read_string(s)
    }

    fn write(&self, out: &mut Vec<u8>) {
        let b = self.as_str().as_bytes();
        write_varint(b.len() as i32, out);
        append_bytes(out, b);
    }

    fn read(buf: &[u8], pos: usize) -> (r: Result<(String, usize), DecodeError>) {
        let (n, p) = match read_varint(buf, pos) {
            Ok(x) => x,
            Err(e) => return Err(e),
        };
        proof {
            lemma_varint_read_len(buf@.skip(pos as int));
        }
        if n < 0 {
            return Err(DecodeError::NegativeLength);
        }
        let n = n as usize;
        if buf.len() - p < n {
            return Err(DecodeError::UnexpectedEof);
        }
        let bytes = vstd::slice::slice_subrange(buf, p, p + n);
        assert(bytes@ =~= buf@.skip(pos as int).subrange((p - pos) as int, (p - pos) + n));
        match str_from_utf8(bytes) {
            Some(s) => Ok((s.to_owned(), p + n)),
            None => Err(DecodeError::InvalidUtf8),
        }
    }

    proof fn lemma_read_len(s: Seq<u8>) {
        lemma_varint_read_len(s);
    }

    proof fn lemma_roundtrip(m: Seq<char>, rest: Seq<u8>) {
        let b = encode_utf8(m);
        let h = spec_varint_encode(b.len() as i32);
        assert(h + b + rest == h + (b + rest));
        lemma_varint_roundtrip(b.len() as i32, b + rest);
        let s = h + b + rest;
        assert(s.subrange(h.len() as int, (h.len() + b.len()) as int) =~= b);
    }
}

/// The bytes of a list's items, back to back.
pub open spec fn write_all<T: Wire>(ms: Seq<T::Model>) -> Seq<u8>
    decreases ms.len(),
{
    if ms.len() == 0 {
        Seq::empty()
    } else {
        write_all::<T>(ms.drop_last()) + T::spec_write(ms.last())
    }
}

/// Reading `count` items from the front of `s`.
pub open spec fn read_n<T: Wire>(s: Seq<u8>, count: nat) -> Result<(Seq<T::Model>, nat), DecodeError>
    decreases count,
{
    if count == 0 {
        Ok((Seq::empty(), 0))
    } else {
        match T::spec_read(s) {
            Ok((m, k)) => if k <= s.len() {
                match read_n::<T>(s.skip(k as int), (count - 1) as nat) {
                    Ok((ms, k2)) => Ok((seq![m] + ms, k + k2)),
                    Err(e) => Err(e),
                }
            } else {
                Err(DecodeError::UnexpectedEof)
            },
            Err(e) => Err(e),
        }
    }
}

/// Items already read (`prefix`, taking `used` bytes) followed by the rest
/// of a read.
pub open spec fn after_prefix<M>(prefix: Seq<M>, used: nat, r: Result<(Seq<M>, nat), DecodeError>) -> Result<
    (Seq<M>, nat),
    DecodeError,
> {
    match r {
        Ok((ms, k)) => Ok((prefix + ms, used + k)),
        Err(e) => Err(e),
    }
}

proof fn lemma_after_prefix_assoc<M>(
    prefix: Seq<M>,
    used: nat,
    m: M,
    k: nat,
    r: Result<(Seq<M>, nat), DecodeError>,
)
    ensures
        after_prefix(prefix, used, after_prefix(seq![m], k, r)) == after_prefix(
            prefix.push(m),
            used + k,
            r,
        ),
{
    if let Ok((ms, k2)) = r {
        assert(prefix + (seq![m] + ms) =~= prefix.push(m) + ms);
    }
}

proof fn lemma_read_n_len<T: Wire>(s: Seq<u8>, count: nat)
    ensures
        read_n::<T>(s, count) matches Ok((ms, k)) ==> k <= s.len() && ms.len() == count,
    decreases count,
{
    if count > 0 {
        if let Ok((m, k)) = T::spec_read(s) {
            if k <= s.len() {
                lemma_read_n_len::<T>(s.skip(k as int), (count - 1) as nat);
            }
        }
    }
}

proof fn lemma_write_all_cons<T: Wire>(ms: Seq<T::Model>)
    requires
        ms.len() > 0,
    ensures
        write_all::<T>(ms) == T::spec_write(ms[0]) + write_all::<T>(ms.skip(1)),
    decreases ms.len(),
{
    if ms.len() == 1 {
        assert(ms.drop_last() =~= Seq::<T::Model>::empty());
        assert(ms.skip(1) =~= Seq::<T::Model>::empty());
        assert(write_all::<T>(ms) =~= T::spec_write(ms[0]) + write_all::<T>(ms.skip(1)));
    } else {
        lemma_write_all_cons::<T>(ms.drop_last());
        assert(ms.drop_last().skip(1) =~= ms.skip(1).drop_last());
        assert(ms.drop_last()[0] == ms[0]);
        assert(ms.skip(1).last() == ms.last());
    }
}

proof fn lemma_read_all<T: Wire>(ms: Seq<T::Model>, rest: Seq<u8>)
    requires
        forall|i: int| 0 <= i < ms.len() ==> T::encodable(#[trigger] ms[i]),
        T::decodable(),
        !T::greedy(),
    ensures
        read_n::<T>(write_all::<T>(ms) + rest, ms.len()) == Ok::<(Seq<T::Model>, nat), DecodeError>(
            (ms, write_all::<T>(ms).len()),
        ),
    decreases ms.len(),
{
    if ms.len() > 0 {
        lemma_write_all_cons::<T>(ms);
        let w0 = T::spec_write(ms[0]);
        let tail = ms.skip(1);
        let wt = write_all::<T>(tail);
        assert(write_all::<T>(ms) + rest == w0 + (wt + rest));
        T::lemma_roundtrip(ms[0], wt + rest);
        lemma_skip_prefix(w0, wt + rest);
        assert forall|i: int| 0 <= i < tail.len() implies T::encodable(#[trigger] tail[i]) by {
            assert(tail[i] == ms[i + 1]);
        }
        lemma_read_all::<T>(tail, rest);
        assert(seq![ms[0]] + tail =~= ms);
        let s = write_all::<T>(ms) + rest;
        assert(T::spec_read(s) == Ok::<(T::Model, nat), DecodeError>((ms[0], w0.len())));
        assert(s.skip(w0.len() as int) == wt + rest);
        assert(tail.len() == (ms.len() - 1) as nat);
        assert(read_n::<T>(s.skip(w0.len() as int), (ms.len() - 1) as nat) == Ok::<
            (Seq<T::Model>, nat),
            DecodeError,
        >((tail, wt.len())));
        assert(w0.len() <= s.len());
        assert(read_n::<T>(s, ms.len()) == Ok::<(Seq<T::Model>, nat), DecodeError>(
            (seq![ms[0]] + tail, w0.len() + wt.len()),
        ));
        assert(write_all::<T>(ms).len() == w0.len() + wt.len());
    } else {
        assert(ms =~= Seq::<T::Model>::empty());
    }
}

/// Reading a list from the front of `s`: a `VarInt` count, then that many
/// items.
pub open spec fn spec_read_list<T: Wire>(s: Seq<u8>) -> Result<(Seq<T::Model>, nat), DecodeError> {
    match spec_varint_read(s) {
        VarIntRead::Value(n, k) => if n < 0 {
            Err(DecodeError::NegativeLength)
        } else {
            after_prefix(Seq::empty(), k, read_n::<T>(s.skip(k as int), n as nat))
        },
        VarIntRead::Truncated => Err(DecodeError::UnexpectedEof),
        VarIntRead::TooLong => Err(DecodeError::VarIntTooLong),
    }
}

/// A list: its length as a `VarInt`, then its items.
impl<T: Wire> Wire for Vec<T> {
    type Model = Seq<T::Model>;

    open spec fn model(&self) -> Seq<T::Model> {
        self@.map_values(|x: T| x.model())
    }

    open spec fn encodable(m: Seq<T::Model>) -> bool {
        &&& m.len() <= i32::MAX
        &&& forall|i: int| 0 <= i < m.len() ==> T::encodable(#[trigger] m[i])
    }

    open spec fn greedy() -> bool {
        false
    }

    open spec fn decodable() -> bool {
        T::decodable() && !T::greedy()
    }

    open spec fn spec_write(m: Seq<T::Model>) -> Seq<u8> {
        spec_varint_encode(m.len() as i32) + write_all::<T>(m)
    }

    open spec fn spec_read(s: Seq<u8>) -> Result<(Seq<T::Model>, nat), DecodeError> {
        spec_read_list::<T>(s)
    }

    fn write(&self, out: &mut Vec<u8>) {
        let ghost ms = self.model();
        let ghost start = out@;
        write_varint(self.len() as i32, out);
        let ghost head = out@;
        let mut i: usize = 0;
        while i < self.len()
            invariant
                ms == self.model(),
                Self::encodable(ms),
                i <= self@.len(),
                out@ == head + write_all::<T>(ms.take(i as int)),
                head == start + spec_varint_encode(self@.len() as i32),
            decreases self@.len() - i,
        {
            assert(ms[i as int] == self@[i as int].model());
            self[i].write(out);
            assert(ms.take(i + 1).drop_last() =~= ms.take(i as int));
            i = i + 1;
        }
        assert(ms.take(self@.len() as int) =~= ms);
        assert(out@ =~= start + Self::spec_write(ms));
    }

    fn read(buf: &[u8], pos: usize) -> (r: Result<(Vec<T>, usize), DecodeError>) {
        let (n, p0) = match read_varint(buf, pos) {
            Ok(x) => x,
            Err(e) => return Err(e),
        };
        proof {
            lemma_varint_read_len(buf@.skip(pos as int));
            lemma_skip_skip(buf@, pos as int, (p0 - pos) as int);
        }
        if n < 0 {
            return Err(DecodeError::NegativeLength);
        }
        let count = n as usize;
        let mut items: Vec<T> = Vec::new();
        let mut p = p0;
        let mut i: usize = 0;
        while i < count
            invariant
                pos <= p0 <= p <= buf@.len(),
                spec_read_list::<T>(buf@.skip(pos as int)) == after_prefix(
                    Seq::<T::Model>::empty(),
                    (p0 - pos) as nat,
                    read_n::<T>(buf@.skip(p0 as int), count as nat),
                ),
                i <= count,
                count == n,
                items@.len() == i,
                read_n::<T>(buf@.skip(p0 as int), count as nat) == after_prefix(
                    items@.map_values(|x: T| x.model()),
                    (p - p0) as nat,
                    read_n::<T>(buf@.skip(p as int), (count - i) as nat),
                ),
            decreases count - i,
        {
            let (item, q) = match T::read(buf, p) {
                Ok(x) => x,
                Err(e) => {
                    proof {
                        assert(read_n::<T>(buf@.skip(p as int), (count - i) as nat) == Err::<
                            (Seq<T::Model>, nat),
                            DecodeError,
                        >(e));
                    }
                    return Err(e);
                },
            };
            proof {
                T::lemma_read_len(buf@.skip(p as int));
                lemma_skip_skip(buf@, p as int, (q - p) as int);
            }
            let ghost before = items@.map_values(|x: T| x.model());
            proof {
                let r_here = read_n::<T>(buf@.skip(q as int), (count - i - 1) as nat);
                assert(read_n::<T>(buf@.skip(p as int), (count - i) as nat) == after_prefix(
                    seq![item.model()],
                    (q - p) as nat,
                    r_here,
                ));
                lemma_after_prefix_assoc(before, (p - p0) as nat, item.model(), (q - p) as nat, r_here);
            }
            items.push(item);
            assert(items@.map_values(|x: T| x.model()) =~= before.push(item.model()));
            p = q;
            i = i + 1;
        }
        proof {
            assert(items@.map_values(|x: T| x.model()) + Seq::<T::Model>::empty() =~= items@.map_values(|x: T| x.model()));
        }
        Ok((items, p))
    }

    proof fn lemma_read_len(s: Seq<u8>) {
        lemma_varint_read_len(s);
        if let VarIntRead::Value(n, k) = spec_varint_read(s) {
            if n >= 0 {
                lemma_read_n_len::<T>(s.skip(k as int), n as nat);
            }
        }
    }

    proof fn lemma_roundtrip(m: Seq<T::Model>, rest: Seq<u8>) {
        let h = spec_varint_encode(m.len() as i32);
        let w = write_all::<T>(m);
        assert(h + w + rest == h + (w + rest));
        lemma_varint_roundtrip(m.len() as i32, w + rest);
        lemma_skip_prefix(h, w + rest);
        lemma_read_all::<T>(m, rest);
        assert(Seq::<T::Model>::empty() + m =~= m);
    }
}

/// An optional value: a boolean, then the value when it is present.
impl<T: Wire> Wire for Option<T> {
    type Model = Option<T::Model>;

    open spec fn model(&self) -> Option<T::Model> {
        match self {
            Some(v) => Some(v.model()),
            None => None,
        }
    }

    open spec fn encodable(m: Option<T::Model>) -> bool {
        match m {
            Some(v) => T::encodable(v),
            None => true,
        }
    }

    open spec fn greedy() -> bool {
        T::greedy()
    }

    open spec fn decodable() -> bool {
        T::decodable()
    }

    open spec fn spec_write(m: Option<T::Model>) -> Seq<u8> {
        match m {
            Some(v) => seq![1u8] + T::spec_write(v),
            None => seq![0u8],
        }
    }

    open spec fn spec_read(s: Seq<u8>) -> Result<(Option<T::Model>, nat), DecodeError> {
        match spec_read_u8(s) {
            Ok((b, _)) => if b == 0 {
                Ok((None, 1))
            } else {
                match T::spec_read(s.skip(1)) {
                    Ok((v, k)) => Ok((Some(v), k + 1)),
                    Err(e) => Err(e),
                }
            },
            Err(e) => Err(e),
        }
    }

    fn write(&self, out: &mut Vec<u8>) {
        let ghost start = out@;
        match self {
            Some(v) => {
                out.push(1u8);
                v.write(out);
            },
            None => {
                out.push(0u8);
            },
        }
        assert(out@ =~= start + Self::spec_write(self.model()));
    }

    fn read(buf: &[u8], pos: usize) -> (r: Result<(Option<T>, usize), DecodeError>) {
        let (b, p) = match read_u8(buf, pos) {
            Ok(x) => x,
            Err(e) => return Err(e),
        };
        if b == 0 {
            return Ok((None, p));
        }
        proof {
            lemma_skip_skip(buf@, pos as int, 1);
        }
        match T::read(buf, p) {
            Ok((v, end)) => Ok((Some(v), end)),
            Err(e) => Err(e),
        }
    }

    proof fn lemma_read_len(s: Seq<u8>) {
        if s.len() >= 1 {
            T::lemma_read_len(s.skip(1));
        }
    }

    proof fn lemma_roundtrip(m: Option<T::Model>, rest: Seq<u8>) {
        if let Some(v) = m {
            assert(seq![1u8] + T::spec_write(v) + rest == seq![1u8] + (T::spec_write(v) + rest));
            lemma_skip_prefix(seq![1u8], T::spec_write(v) + rest);
            T::lemma_roundtrip(v, rest);
        }
    }
}

/// `N` bytes as they are, with no length prefix.
impl<const N: usize> Wire for [u8; N] {
    type Model = Seq<u8>;

    open spec fn model(&self) -> Seq<u8> {
        self@
    }

    open spec fn encodable(m: Seq<u8>) -> bool {
        m.len() == N
    }

    open spec fn greedy() -> bool {
        false
    }

    open spec fn decodable() -> bool {
        true
    }

    open spec fn spec_write(m: Seq<u8>) -> Seq<u8> {
        m
    }

    open spec fn spec_read(s: Seq<u8>) -> Result<(Seq<u8>, nat), DecodeError> {
        if s.len() < N {
            Err(DecodeError::UnexpectedEof)
        } else {
            Ok((s.take(N as int), N as nat))
        }
    }

    fn write(&self, out: &mut Vec<u8>) {
        append_bytes(out, self.as_slice());
    }

    fn read(buf: &[u8], pos: usize) -> (r: Result<([u8; N], usize), DecodeError>) {
        if buf.len() - pos < N {
            return Err(DecodeError::UnexpectedEof);
        }
        let mut a: [u8; N] = [0u8; N];
        let mut i: usize = 0;
        while i < N
            invariant
                pos + N <= buf@.len(),
                buf@.len() <= usize::MAX,
                i <= N,
                a@.len() == N,
                forall|j: int| 0 <= j < i ==> a@[j] == buf@[pos + j],
            decreases N - i,
        {
            let b = buf[pos + i];
            a[i] = b;
            i = i + 1;
        }
        assert(a@ =~= buf@.skip(pos as int).take(N as int));
        Ok((a, pos + N))
    }

    proof fn lemma_read_len(s: Seq<u8>) {
    }

    proof fn lemma_roundtrip(m: Seq<u8>, rest: Seq<u8>) {
        assert((m + rest).take(N as int) =~= m);
    }
}

/// The remaining bytes of a packet, kept as they are.
#[derive(Clone, Debug, Default, PartialEq, Eq)]
pub struct RawBytes(pub Vec<u8>);

impl RawBytes {
    /// Wraps `data`.
    pub fn new(data: Vec<u8>) -> (r: RawBytes)
        ensures
            r.0@ == data@,
    {
        RawBytes(data)
    }
}

/// Raw bytes take everything that is left.
impl Wire for RawBytes {
    type Model = Seq<u8>;

    open spec fn model(&self) -> Seq<u8> {
        self.0@
    }

    open spec fn encodable(m: Seq<u8>) -> bool {
        true
    }

    open spec fn greedy() -> bool {
        true
    }

    open spec fn decodable() -> bool {
        true
    }

    open spec fn spec_write(m: Seq<u8>) -> Seq<u8> {
        m
    }

    open spec fn spec_read(s: Seq<u8>) -> Result<(Seq<u8>, nat), DecodeError> {
        Ok((s, s.len()))
    }

    fn write(&self, out: &mut Vec<u8>) {
        append_bytes(out, self.0.as_slice());
    }

    fn read(buf: &[u8], pos: usize) -> (r: Result<(RawBytes, usize), DecodeError>) {
        let rest = vstd::slice::slice_subrange(buf, pos, buf.len());
        let v = vstd::slice::slice_to_vec(rest);
        assert(v@ =~= buf@.skip(pos as int));
        Ok((RawBytes(v), buf.len()))
    }

    proof fn lemma_read_len(s: Seq<u8>) {
    }

    proof fn lemma_roundtrip(m: Seq<u8>, rest: Seq<u8>) {
        assert(m + rest =~= m);
    }
}

} // verus!
