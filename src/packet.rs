use vstd::prelude::*;

verus! {

/// Size in bytes of one telemetry datagram.
pub const PACKET_SIZE: usize = 40;

/// One telemetry record as it travels on the wire: ten little-endian 32-bit
/// words, in field order, with no padding.
///
/// `x`, `y`, `z` (projected position) and `i`, `j`, `k`, `r` (orientation
/// quaternion) hold IEEE-754 single-precision bit patterns; every pattern is a
/// legal value.
#[derive(Debug, Clone, Copy, PartialEq, Eq, Structural)]
pub struct LocationInfo {
    pub seconds: u32,
    pub nanos: u32,
    pub loc_type: u32,
    pub x: u32,
    pub y: u32,
    pub z: u32,
    pub i: u32,
    pub j: u32,
    pub k: u32,
    pub r: u32,
}

/// The value of four bytes read least significant first.
pub open spec fn word_le(b0: u8, b1: u8, b2: u8, b3: u8) -> int {
    b0 + 256 * b1 + 65536 * b2 + 16777216 * b3
}

/// The `n`-th 32-bit word of a byte sequence.
pub open spec fn word_at(b: Seq<u8>, n: int) -> u32 {
    word_le(b[4 * n], b[4 * n + 1], b[4 * n + 2], b[4 * n + 3]) as u32
}

/// Byte `k` of `v`, counting from the least significant one.
pub open spec fn byte_of(v: u32, k: int) -> u8 {
    if k == 0 {
        (v % 256) as u8
    } else if k == 1 {
        (v / 256 % 256) as u8
    } else if k == 2 {
        (v / 256 / 256 % 256) as u8
    } else {
        (v / 256 / 256 / 256) as u8
    }
}

/// The fields of a record in wire order.
pub open spec fn words(p: LocationInfo) -> Seq<u32> {
    seq![p.seconds, p.nanos, p.loc_type, p.x, p.y, p.z, p.i, p.j, p.k, p.r]
}

/// The record whose fields, in wire order, are `w`.
pub open spec fn from_words(w: Seq<u32>) -> LocationInfo {
    LocationInfo {
        seconds: w[0],
        nanos: w[1],
        loc_type: w[2],
        x: w[3],
        y: w[4],
        z: w[5],
        i: w[6],
        j: w[7],
        k: w[8],
        r: w[9],
    }
}

/// The record that 40 bytes hold.
pub open spec fn decode(b: Seq<u8>) -> LocationInfo {
    from_words(Seq::new(10, |n: int| word_at(b, n)))
}

/// The 40 bytes that stand for a record.
pub open spec fn encode(p: LocationInfo) -> Seq<u8> {
    Seq::new(40, |m: int| byte_of(words(p)[m / 4], m % 4))
}

proof fn lemma_word_of_bytes(v: u32)
    ensures
        word_le(byte_of(v, 0), byte_of(v, 1), byte_of(v, 2), byte_of(v, 3)) == v,
{
    let q1 = v / 256;
    let q2 = q1 / 256;
    vstd::arithmetic::div_mod::lemma_fundamental_div_mod(v as int, 256);
    vstd::arithmetic::div_mod::lemma_fundamental_div_mod(q1 as int, 256);
    vstd::arithmetic::div_mod::lemma_fundamental_div_mod(q2 as int, 256);
}

proof fn lemma_bytes_of_word(b0: u8, b1: u8, b2: u8, b3: u8)
    ensures
        byte_of(word_le(b0, b1, b2, b3) as u32, 0) == b0,
        byte_of(word_le(b0, b1, b2, b3) as u32, 1) == b1,
        byte_of(word_le(b0, b1, b2, b3) as u32, 2) == b2,
        byte_of(word_le(b0, b1, b2, b3) as u32, 3) == b3,
{
    let v = word_le(b0, b1, b2, b3);
    let q1 = b1 + 256 * b2 + 65536 * b3;
    let q2 = b2 + 256 * b3;
    assert(v == 256 * q1 + b0);
    assert(q1 == 256 * q2 + b1);
    assert(q2 == 256 * b3 + b2);
    vstd::arithmetic::div_mod::lemma_fundamental_div_mod_converse(v, 256, q1, b0 as int);
    vstd::arithmetic::div_mod::lemma_fundamental_div_mod_converse(q1, 256, q2, b1 as int);
    vstd::arithmetic::div_mod::lemma_fundamental_div_mod_converse(q2, 256, b3 as int, b2 as int);
}

/// Decoding the bytes of an encoded record gives the record back.
pub proof fn lemma_decode_encode(p: LocationInfo)
    ensures
        decode(encode(p)) == p,
{
    let b = encode(p);
    assert forall|n: int| 0 <= n < 10 implies word_at(b, n) == words(p)[n] by {
        lemma_word_of_bytes(words(p)[n]);
        assert(b[4 * n] == byte_of(words(p)[n], 0));
        assert(b[4 * n + 1] == byte_of(words(p)[n], 1));
        assert(b[4 * n + 2] == byte_of(words(p)[n], 2));
        assert(b[4 * n + 3] == byte_of(words(p)[n], 3));
    }
}

/// Encoding the record that 40 bytes hold gives the same bytes back.
pub proof fn lemma_encode_decode(b: Seq<u8>)
    requires
        b.len() == PACKET_SIZE,
    ensures
        encode(decode(b)) == b,
{
    let p = decode(b);
    assert forall|m: int| 0 <= m < 40 implies #[trigger] encode(p)[m] == b[m] by {
        let n = m / 4;
        lemma_bytes_of_word(b[4 * n], b[4 * n + 1], b[4 * n + 2], b[4 * n + 3]);
        assert(words(p)[n] == word_at(b, n));
    }
    assert(encode(p) =~= b);
}

fn read_word(bytes: &[u8], n: usize) -> (r: u32)
    requires
        bytes@.len() == PACKET_SIZE,
        n < 10,
    ensures
        r == word_at(bytes@, n as int),
{
    let at = 4 * n;
    let b0 = bytes[at] as u32;
    let b1 = bytes[at + 1] as u32;
    let b2 = bytes[at + 2] as u32;
    let b3 = bytes[at + 3] as u32;
    b0 + 256 * b1 + 65536 * b2 + 16777216 * b3
}

fn write_word(out: &mut [u8; 40], n: usize, v: u32)
    requires
        n < 10,
    ensures
        forall|m: int|
            0 <= m < 40 ==> #[trigger] final(out)@[m] == if m / 4 == n {
                byte_of(v, m % 4)
            } else {
                old(out)@[m]
            },
{
    let at = 4 * n;
    let q1 = v / 256;
    let q2 = q1 / 256;
    out[at] = (v % 256) as u8;
    out[at + 1] = (q1 % 256) as u8;
    out[at + 2] = (q2 % 256) as u8;
    out[at + 3] = (q2 / 256) as u8;
}

/// Decodes a record from slice bytes; the caller has checked the length.
pub(crate) fn decode_slice(bytes: &[u8]) -> (r: LocationInfo)
    requires
        bytes@.len() == PACKET_SIZE,
    ensures
        r == decode(bytes@),
{
    LocationInfo {
        seconds: read_word(bytes, 0),
        nanos: read_word(bytes, 1),
        loc_type: read_word(bytes, 2),
        x: read_word(bytes, 3),
        y: read_word(bytes, 4),
        z: read_word(bytes, 5),
        i: read_word(bytes, 6),
        j: read_word(bytes, 7),
        k: read_word(bytes, 8),
        r: read_word(bytes, 9),
    }
}

impl LocationInfo {
    /// Reads the record that a datagram of exactly 40 bytes holds.
    pub fn from_bytes(bytes: [u8; 40]) -> (r: LocationInfo)
        ensures
            r == decode(bytes@),
    {
        decode_slice(bytes.as_slice())
    }

    /// Writes the record in its 40-byte wire layout.
    pub fn to_bytes(&self) -> (r: [u8; 40])
        ensures
            r@ == encode(*self),
    {
        let mut out = [0u8; 40];
        write_word(&mut out, 0, self.seconds);
        write_word(&mut out, 1, self.nanos);
        write_word(&mut out, 2, self.loc_type);
        write_word(&mut out, 3, self.x);
        write_word(&mut out, 4, self.y);
        write_word(&mut out, 5, self.z);
        write_word(&mut out, 6, self.i);
        write_word(&mut out, 7, self.j);
        write_word(&mut out, 8, self.k);
        write_word(&mut out, 9, self.r);
        assert(out@ =~= encode(*self));
        out
    }
}

} // verus!
