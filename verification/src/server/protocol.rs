//! Runtime protocol-version dispatch.
//!
//! Several protocol versions are compiled into one library. The selected
//! version is carried by [`ProtocolKind`]; every version-sensitive operation
//! matches on it and calls into that version's modules (their packet groups
//! have version-specific ids and fields, so they cannot share one enum).

use vstd::prelude::*;
use vstd::string::StringSliceAdditionalSpecFns;

use crate::error::DecodeError;
use crate::protocol::Protocol;
use crate::state::State;
use crate::v1_20_1::c2s::{
    spec_decode_c2s_packet as spec_decode_c2s_v1_20_1, C2SPacket as C2SPacketV1_20_1,
    C2SPacketModel as C2SModelV1_20_1,
};
use crate::v1_20_1::V1_20_1;
use crate::v1_21_1::c2s::{
    spec_decode_c2s_packet as spec_decode_c2s_v1_21_1, C2SPacket as C2SPacketV1_21_1,
    C2SPacketModel as C2SModelV1_21_1,
};
use crate::v1_21_1::V1_21_1;

verus! {

/// The selected Minecraft protocol version of a connection.
#[derive(Debug, Clone, Copy, PartialEq, Eq, Structural)]
pub enum ProtocolKind {
    V1_20_1(V1_20_1),
    V1_21_1(V1_21_1),
}

/// The protocol number of a version.
pub open spec fn kind_protocol_version(k: ProtocolKind) -> usize {
    match k {
        ProtocolKind::V1_20_1(_) => V1_20_1::spec_protocol_version(),
        ProtocolKind::V1_21_1(_) => V1_21_1::spec_protocol_version(),
    }
}

/// The human-readable Minecraft version of a version.
pub open spec fn kind_minecraft_version(k: ProtocolKind) -> Seq<char> {
    match k {
        ProtocolKind::V1_20_1(_) => V1_20_1::spec_minecraft_version(),
        ProtocolKind::V1_21_1(_) => V1_21_1::spec_minecraft_version(),
    }
}

/// A version selector names no supported version.
#[derive(Debug, Clone, Copy, PartialEq, Eq, Structural)]
pub struct UnsupportedVersion;

/// `b` with the ASCII capitals `A`..`Z` turned into `a`..`z`.
pub open spec fn ascii_lower_byte(b: u8) -> u8 {
    if 0x41 <= b <= 0x5a {
        (b + 0x20) as u8
    } else {
        b
    }
}

/// The bytes of `s` with ASCII capitals lowered. Bytes of multi-byte UTF-8
/// sequences are all `0x80` or above, so this is the ASCII lowering of the
/// characters that `s` encodes.
pub open spec fn ascii_lower(s: Seq<u8>) -> Seq<u8> {
    Seq::new(s.len(), |i: int| ascii_lower_byte(s[i]))
}

/// The version that the lowered selector `l` names: `1.20.1` or `763`, or
/// `1.21.1` or `767`.
pub open spec fn selector_version(l: Seq<u8>) -> Option<ProtocolKind> {
    if l == "1.20.1".spec_bytes() || l == "763".spec_bytes() {
        Some(ProtocolKind::V1_20_1(V1_20_1))
    } else if l == "1.21.1".spec_bytes() || l == "767".spec_bytes() {
        Some(ProtocolKind::V1_21_1(V1_21_1))
    } else {
        None
    }
}

/// What parsing an already trimmed selector gives.
pub open spec fn spec_parse_trimmed(t: Seq<u8>) -> Result<ProtocolKind, UnsupportedVersion> {
    match selector_version(ascii_lower(t)) {
        Some(k) => Ok(k),
        None => Err(UnsupportedVersion),
    }
}

/// Whether `c` has the Unicode `White_Space` property: the characters
/// that `str::trim` removes.
pub open spec fn is_white_space(c: char) -> bool {
    let u = c as u32;
    ||| 0x09 <= u <= 0x0d
    ||| u == 0x20 || u == 0x85 || u == 0xa0 || u == 0x1680
    ||| 0x2000 <= u <= 0x200a
    ||| u == 0x2028 || u == 0x2029 || u == 0x202f || u == 0x205f || u == 0x3000
}

/// `s` without its leading white space.
pub open spec fn trim_start(s: Seq<char>) -> Seq<char>
    decreases s.len(),
{
    if s.len() > 0 && is_white_space(s[0]) {
        trim_start(s.drop_first())
    } else {
        s
    }
}

/// `s` without its trailing white space.
pub open spec fn trim_end(s: Seq<char>) -> Seq<char>
    decreases s.len(),
{
    if s.len() > 0 && is_white_space(s.last()) {
        trim_end(s.drop_last())
    } else {
        s
    }
}

/// `s` without its leading and trailing white space.
pub open spec fn spec_trim(s: Seq<char>) -> Seq<char> {
    trim_end(trim_start(s))
}

/// Calls `str::trim`, which returns the string without its leading and
/// trailing characters of the Unicode `White_Space` property.
#[verifier::external_body]
fn trim(s: &str) -> (r: &str)
    ensures
        r@ == spec_trim(s@),
{
    s.trim()
}

/// The ASCII lowering of `b`, in a new vector.
fn lowercase_bytes(b: &[u8]) -> (r: Vec<u8>)
    ensures
        r@ == ascii_lower(b@),
{
    let mut out: Vec<u8> = Vec::new();
    let mut i: usize = 0;
    while i < b.len()
        invariant
            i <= b@.len(),
            out@ == ascii_lower(b@.take(i as int)),
        decreases b@.len() - i,
    {
        let c = b[i];
        let l = if 0x41 <= c && c <= 0x5a {
            c + 0x20
        } else {
            c
        };
        out.push(l);
        i = i + 1;
        assert(out@ =~= ascii_lower(b@.take(i as int)));
    }
    assert(b@.take(b@.len() as int) =~= b@);
    out
}

/// Whether two byte slices hold the same bytes.
fn bytes_eq(a: &[u8], b: &[u8]) -> (r: bool)
    ensures
        r == (a@ == b@),
{
    if a.len() != b.len() {
        return false;
    }
    let mut i: usize = 0;
    while i < a.len()
        invariant
            i <= a@.len(),
            a@.len() == b@.len(),
            a@.take(i as int) == b@.take(i as int),
        decreases a@.len() - i,
    {
        if a[i] != b[i] {
            assert(a@[i as int] != b@[i as int]);
            return false;
        }
        assert(a@.take(i + 1) =~= a@.take(i as int).push(a@[i as int]));
        assert(b@.take(i + 1) =~= b@.take(i as int).push(b@[i as int]));
        i = i + 1;
    }
    assert(a@.take(a@.len() as int) =~= a@);
    assert(b@.take(b@.len() as int) =~= b@);
    true
}

impl ProtocolKind {
    /// The protocol number of the selected version.
    pub fn protocol_version(&self) -> (r: usize)
        ensures
            r == kind_protocol_version(*self),
    {
        match self {
            ProtocolKind::V1_20_1(p) => p.protocol_version(),
            ProtocolKind::V1_21_1(p) => p.protocol_version(),
        }
    }

    /// The human-readable Minecraft version of the selected version.
    pub fn minecraft_version(&self) -> (r: &'static str)
        ensures
            r@ == kind_minecraft_version(*self),
    {
        match self {
            ProtocolKind::V1_20_1(p) => p.minecraft_version(),
            ProtocolKind::V1_21_1(p) => p.minecraft_version(),
        }
    }

    /// Parses a selector that has already been trimmed: the version
    /// (`1.20.1`, `1.21.1`) or the protocol number (`763`, `767`), ASCII
    /// case-insensitively.
    pub fn parse_trimmed(t: &str) -> (r: Result<ProtocolKind, UnsupportedVersion>)
        ensures
            r == spec_parse_trimmed(t.spec_bytes()),
    {
        let l = lowercase_bytes(t.as_bytes());
        let l = l.as_slice();
        if bytes_eq(l, "1.20.1".as_bytes()) || bytes_eq(l, "763".as_bytes()) {
            Ok(ProtocolKind::V1_20_1(V1_20_1))
        } else if bytes_eq(l, "1.21.1".as_bytes()) || bytes_eq(l, "767".as_bytes()) {
            Ok(ProtocolKind::V1_21_1(V1_21_1))
        } else {
            Err(UnsupportedVersion)
        }
    }

    /// Parses a version selector: surrounding white space is ignored, then
    /// the selector is read as [`ProtocolKind::parse_trimmed`] reads it.
    pub fn parse_selector(s: &str) -> (r: Result<ProtocolKind, UnsupportedVersion>)
        ensures
            r == spec_parse_trimmed(vstd::utf8::encode_utf8(spec_trim(s@))),
    {
        let t = trim(s);
        Self::parse_trimmed(t)
    }
}

/// The default version is 1.20.1.
impl Default for ProtocolKind {
    fn default() -> (r: Self)
        ensures
            r == ProtocolKind::V1_20_1(V1_20_1),
    {
        ProtocolKind::V1_20_1(V1_20_1)
    }
}

/// A selector parses as [`ProtocolKind::parse_selector`] parses it.
impl std::str::FromStr for ProtocolKind {
    type Err = UnsupportedVersion;

    fn from_str(s: &str) -> (r: Result<ProtocolKind, UnsupportedVersion>)
        ensures
            r == spec_parse_trimmed(vstd::utf8::encode_utf8(spec_trim(s@))),
    {
        ProtocolKind::parse_selector(s)
    }
}

/// A client-to-server packet decoded against the selected version.
#[derive(Debug)]
pub enum DecodedC2S {
    V1_20_1(C2SPacketV1_20_1),
    V1_21_1(C2SPacketV1_21_1),
}

/// The model of a decoded packet: the model of that version's packet.
pub ghost enum DecodedC2SModel {
    V1_20_1(C2SModelV1_20_1),
    V1_21_1(C2SModelV1_21_1),
}

impl DecodedC2S {
    /// The model of this packet.
    pub open spec fn model(&self) -> DecodedC2SModel {
        match self {
            DecodedC2S::V1_20_1(p) => DecodedC2SModel::V1_20_1(p.model()),
            DecodedC2S::V1_21_1(p) => DecodedC2SModel::V1_21_1(p.model()),
        }
    }

    /// Decodes a packet body (the bytes after the length and compression
    /// framing) with the given version's packet group in the given state.
    pub fn decode(protocol: ProtocolKind, state: State, buf: &[u8]) -> (r: Result<
        DecodedC2S,
        DecodeError,
    >)
        ensures
            match spec_decode_c2s(protocol, state, buf@) {
                Ok(m) => r matches Ok(p) && p.model() == m,
                Err(e) => r == Err::<DecodedC2S, DecodeError>(e),
            },
    {
        match protocol {
            ProtocolKind::V1_20_1(_) => match C2SPacketV1_20_1::decode_in_state(state, buf) {
                Ok(p) => Ok(DecodedC2S::V1_20_1(p)),
                Err(e) => Err(e),
            },
            ProtocolKind::V1_21_1(_) => match C2SPacketV1_21_1::decode_in_state(state, buf) {
                Ok(p) => Ok(DecodedC2S::V1_21_1(p)),
                Err(e) => Err(e),
            },
        }
    }
}

/// What decoding a packet body with the selected version gives.
pub open spec fn spec_decode_c2s(protocol: ProtocolKind, state: State, s: Seq<u8>) -> Result<
    DecodedC2SModel,
    DecodeError,
> {
    match protocol {
        ProtocolKind::V1_20_1(_) => match spec_decode_c2s_v1_20_1(state, s) {
            Ok(m) => Ok(DecodedC2SModel::V1_20_1(m)),
            Err(e) => Err(e),
        },
        ProtocolKind::V1_21_1(_) => match spec_decode_c2s_v1_21_1(state, s) {
            Ok(m) => Ok(DecodedC2SModel::V1_21_1(m)),
            Err(e) => Err(e),
        },
    }
}

/// Lowering ASCII capitals twice is lowering them once.
proof fn lemma_ascii_lower_idempotent(t: Seq<u8>)
    ensures
        ascii_lower(ascii_lower(t)) == ascii_lower(t),
{
    assert(ascii_lower(ascii_lower(t)) =~= ascii_lower(t));
}

/// Selectors are read case-insensitively: a trimmed selector and its ASCII
/// lowering select the same version.
pub proof fn lemma_selector_case_insensitive(t: Seq<u8>)
    ensures
        spec_parse_trimmed(ascii_lower(t)) == spec_parse_trimmed(t),
{
    lemma_ascii_lower_idempotent(t);
}

/// A selector with no ASCII capital is its own lowering.
proof fn lemma_lower_of_literal(s: &str)
    requires
        vstd::string::is_ascii(s),
        forall|i: int| 0 <= i < s@.len() ==> !('A' <= #[trigger] s@[i] <= 'Z'),
    ensures
        ascii_lower(s.spec_bytes()) == s.spec_bytes(),
{
    vstd::string::is_ascii_spec_bytes(s);
    assert forall|i: int| 0 <= i < s.spec_bytes().len() implies ascii_lower_byte(
        #[trigger] s.spec_bytes()[i],
    ) == s.spec_bytes()[i] by {
        assert(s.spec_bytes()[i] == s@[i] as u8);
    }
    assert(ascii_lower(s.spec_bytes()) =~= s.spec_bytes());
}

/// Each version is selected by its own Minecraft version and by its
/// protocol number: `1.20.1` and `763` select 1.20.1, `1.21.1` and `767`
/// select 1.21.1.
pub proof fn lemma_selectors_name_versions()
    ensures
        spec_parse_trimmed("1.20.1".spec_bytes()) == Ok::<ProtocolKind, UnsupportedVersion>(
            ProtocolKind::V1_20_1(V1_20_1),
        ),
        spec_parse_trimmed("763".spec_bytes()) == Ok::<ProtocolKind, UnsupportedVersion>(
            ProtocolKind::V1_20_1(V1_20_1),
        ),
        spec_parse_trimmed("1.21.1".spec_bytes()) == Ok::<ProtocolKind, UnsupportedVersion>(
            ProtocolKind::V1_21_1(V1_21_1),
        ),
        spec_parse_trimmed("767".spec_bytes()) == Ok::<ProtocolKind, UnsupportedVersion>(
            ProtocolKind::V1_21_1(V1_21_1),
        ),
        forall|k: ProtocolKind|
            spec_parse_trimmed(vstd::utf8::encode_utf8(#[trigger] kind_minecraft_version(k)))
                == Ok::<ProtocolKind, UnsupportedVersion>(k),
{
    reveal_strlit("1.20.1");
    reveal_strlit("763");
    reveal_strlit("1.21.1");
    reveal_strlit("767");
    lemma_lower_of_literal("1.20.1");
    lemma_lower_of_literal("763");
    lemma_lower_of_literal("1.21.1");
    lemma_lower_of_literal("767");
    vstd::string::is_ascii_spec_bytes("1.20.1");
    vstd::string::is_ascii_spec_bytes("763");
    vstd::string::is_ascii_spec_bytes("1.21.1");
    vstd::string::is_ascii_spec_bytes("767");
    assert("1.20.1".spec_bytes() != "763".spec_bytes());
    assert("1.21.1".spec_bytes()[3] != "1.20.1".spec_bytes()[3]);
    assert("1.21.1".spec_bytes() != "1.20.1".spec_bytes());
    assert("1.21.1".spec_bytes() != "763".spec_bytes());
    assert("767".spec_bytes() != "1.20.1".spec_bytes());
    assert("767".spec_bytes()[2] != "763".spec_bytes()[2]);
    assert("767".spec_bytes() != "763".spec_bytes());
    assert forall|k: ProtocolKind|
        spec_parse_trimmed(vstd::utf8::encode_utf8(#[trigger] kind_minecraft_version(k)))
            == Ok::<ProtocolKind, UnsupportedVersion>(k) by {
        match k {
            ProtocolKind::V1_20_1(v) => {
                assert(v == V1_20_1);
            },
            ProtocolKind::V1_21_1(v) => {
                assert(v == V1_21_1);
            },
        }
    }
}

/// Every character of `p` is white space.
pub open spec fn all_white_space(p: Seq<char>) -> bool {
    forall|i: int| 0 <= i < p.len() ==> is_white_space(#[trigger] p[i])
}

/// Leading white space before a string that starts with another
/// character is trimmed away, and nothing more.
proof fn lemma_trim_start_padded(p: Seq<char>, s: Seq<char>)
    requires
        all_white_space(p),
        s.len() > 0,
        !is_white_space(s[0]),
    ensures
        trim_start(p + s) == s,
    decreases p.len(),
{
    if p.len() == 0 {
        assert(p + s =~= s);
    } else {
        assert((p + s).drop_first() =~= p.drop_first() + s);
        assert(is_white_space(p[0]));
        lemma_trim_start_padded(p.drop_first(), s);
    }
}

/// Trailing white space after a string that ends with another character
/// is trimmed away, and nothing more.
proof fn lemma_trim_end_padded(s: Seq<char>, q: Seq<char>)
    requires
        all_white_space(q),
        s.len() > 0,
        !is_white_space(s.last()),
    ensures
        trim_end(s + q) == s,
    decreases q.len(),
{
    if q.len() == 0 {
        assert(s + q =~= s);
    } else {
        assert((s + q).drop_last() =~= s + q.drop_last());
        assert(is_white_space(q[q.len() - 1]));
        lemma_trim_end_padded(s, q.drop_last());
    }
}

/// Trimming a string padded with white space on both sides gives the
/// string, when it neither starts nor ends with white space.
pub proof fn lemma_trim_padded(p: Seq<char>, s: Seq<char>, q: Seq<char>)
    requires
        all_white_space(p),
        all_white_space(q),
        s.len() > 0,
        !is_white_space(s[0]),
        !is_white_space(s.last()),
    ensures
        spec_trim(p + s + q) == s,
{
    assert(p + s + q =~= p + (s + q));
    assert((s + q)[0] == s[0]);
    lemma_trim_start_padded(p, s + q);
    lemma_trim_end_padded(s, q);
}

/// A version selector is read whatever white space surrounds it: each
/// version's own Minecraft version, padded with white space, selects that
/// version, and so do the protocol numbers `763` (1.20.1) and `767`
/// (1.21.1).
pub proof fn lemma_parse_selector_padded(k: ProtocolKind, p: Seq<char>, q: Seq<char>)
    requires
        all_white_space(p),
        all_white_space(q),
    ensures
        spec_parse_trimmed(vstd::utf8::encode_utf8(spec_trim(p + kind_minecraft_version(k) + q)))
            == Ok::<ProtocolKind, UnsupportedVersion>(k),
        spec_parse_trimmed(vstd::utf8::encode_utf8(spec_trim(p + "763"@ + q))) == Ok::<
            ProtocolKind,
            UnsupportedVersion,
        >(ProtocolKind::V1_20_1(V1_20_1)),
        spec_parse_trimmed(vstd::utf8::encode_utf8(spec_trim(p + "767"@ + q))) == Ok::<
            ProtocolKind,
            UnsupportedVersion,
        >(ProtocolKind::V1_21_1(V1_21_1)),
{
    reveal_strlit("1.20.1");
    reveal_strlit("1.21.1");
    reveal_strlit("763");
    reveal_strlit("767");
    lemma_selectors_name_versions();
    let v = kind_minecraft_version(k);
    assert(v.len() > 0 && !is_white_space(v[0]) && !is_white_space(v.last()));
    lemma_trim_padded(p, v, q);
    lemma_trim_padded(p, "763"@, q);
    lemma_trim_padded(p, "767"@, q);
}

} // verus!
