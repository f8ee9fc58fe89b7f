//! Wire frame format of the serial bus: encoding, decoding and the CRC-16
//! checksum.
//!
//! A frame is laid out as
//! `[unit_id][command][reference][value_hi][value_lo][crc_lo][crc_hi]`,
//! where the reference is a two-byte big-endian register address in a
//! request and a one-byte size in a read reply.  The checksum is the
//! bit-serial CRC-16 with reflected polynomial `0xA001` seeded at `0xFFFF`,
//! appended low byte first; a received span is valid exactly when the same
//! checksum recomputed over the whole span (payload plus trailer) is zero.

use vstd::prelude::*;

verus! {

/// One round of the bit-serial CRC: shift right, folding the polynomial in
/// when the low bit was set.
pub open spec fn crc_step(c: u16) -> u16 {
    if c & 1 == 1 {
        (c >> 1) ^ 0xA001
    } else {
        c >> 1
    }
}

/// `n` rounds of the bit-serial CRC.
pub open spec fn crc_steps(c: u16, n: nat) -> u16
    decreases n,
{
    if n == 0 {
        c
    } else {
        crc_steps(crc_step(c), (n - 1) as nat)
    }
}

/// Folding one byte into the running checksum: xor it in, then run the
/// eight bit rounds.
pub open spec fn crc_push(c: u16, b: u8) -> u16 {
    crc_steps(c ^ (b as u16), 8)
}

/// The checksum of `data` when the running value starts at `seed`.
pub open spec fn crc_from(seed: u16, data: Seq<u8>) -> u16
    decreases data.len(),
{
    if data.len() == 0 {
        seed
    } else {
        crc_push(crc_from(seed, data.drop_last()), data.last())
    }
}

/// The wire checksum: CRC-16 over `data`, seeded at `0xFFFF`.
pub open spec fn spec_crc16(data: Seq<u8>) -> u16 {
    crc_from(0xFFFF, data)
}

proof fn lemma_crc_steps_succ(c: u16, n: nat)
    ensures
        crc_steps(c, n + 1) == crc_step(crc_steps(c, n)),
    decreases n,
{
    assert(crc_steps(c, n + 1) == crc_steps(crc_step(c), n));
    if n > 0 {
        lemma_crc_steps_succ(crc_step(c), (n - 1) as nat);
        assert(crc_steps(c, n) == crc_steps(crc_step(c), (n - 1) as nat));
    }
}

/// Computes the CRC-16 of `data` (polynomial `0xA001`, seed `0xFFFF`).
pub fn calculate_crc16(data: &[u8]) -> (crc: u16)
    ensures
        crc == spec_crc16(data@),
{
    let mut crc: u16 = 0xFFFF;
    let n: usize = data.len();
    proof {
        assert(data@.take(0) =~= Seq::<u8>::empty());
    }
    for i in 0..n
        invariant
            n == data@.len(),
            crc == crc_from(0xFFFF, data@.take(i as int)),
    {
        let b: u8 = data[i];
        crc = crc ^ (b as u16);
        let ghost start: u16 = crc;
        let mut k: u8 = 0;
        while k < 8
            invariant
                k <= 8,
            crc == crc_steps(start, k as nat),
            decreases 8 - k,
        {
            proof {
                assert(crc & 0x0001 == 0 || crc & 0x0001 == 1) by (bit_vector);
            }
            if (crc & 0x0001) != 0 {
                crc = (crc >> 1) ^ 0xA001;
            } else {
                crc = crc >> 1;
            }
            proof {
                lemma_crc_steps_succ(start, k as nat);
            }
            k = k + 1;
        }
        proof {
            assert(data@.take(i as int + 1).drop_last() =~= data@.take(i as int));
        }
    }
    proof {
        assert(data@.take(n as int) =~= data@);
    }
    crc
}

/// One CRC round written as a single bit-vector formula, with the branch on
/// the low bit turned into a multiplication by that bit.
proof fn lemma_crc_step_formula(c: u16)
    ensures
        crc_step(c) == (c >> 1) ^ (((c & 1) * 0xA001) as u16),
{
    assert(crc_step(c) == (c >> 1) ^ (((c & 1) * 0xA001) as u16)) by (bit_vector);
}

/// Pushing the running checksum's own low byte and then its high byte into
/// the checksum drives it to zero: the fact behind appending the CRC low
/// byte first and validating a span by recomputing over the whole of it.
proof fn lemma_crc_trailer_zero(c: u16)
    ensures
        crc_push(crc_push(c, (c & 0xff) as u8), ((c >> 8) & 0xff) as u8) == 0,
{
    let lo: u8 = (c & 0xff) as u8;
    let hi: u8 = ((c >> 8) & 0xff) as u8;
    let x0: u16 = c ^ (lo as u16);
    let x1: u16 = crc_step(x0);
    let x2: u16 = crc_step(x1);
    let x3: u16 = crc_step(x2);
    let x4: u16 = crc_step(x3);
    let x5: u16 = crc_step(x4);
    let x6: u16 = crc_step(x5);
    let x7: u16 = crc_step(x6);
    let x8: u16 = crc_step(x7);
    assert(crc_push(c, lo) == x8) by {
        assert(crc_steps(x0, 8) == crc_steps(x1, 7));
        assert(crc_steps(x1, 7) == crc_steps(x2, 6));
        assert(crc_steps(x2, 6) == crc_steps(x3, 5));
        assert(crc_steps(x3, 5) == crc_steps(x4, 4));
        assert(crc_steps(x4, 4) == crc_steps(x5, 3));
        assert(crc_steps(x5, 3) == crc_steps(x6, 2));
        assert(crc_steps(x6, 2) == crc_steps(x7, 1));
        assert(crc_steps(x7, 1) == crc_steps(x8, 0));
    };
    let y0: u16 = x8 ^ (hi as u16);
    let y1: u16 = crc_step(y0);
    let y2: u16 = crc_step(y1);
    let y3: u16 = crc_step(y2);
    let y4: u16 = crc_step(y3);
    let y5: u16 = crc_step(y4);
    let y6: u16 = crc_step(y5);
    let y7: u16 = crc_step(y6);
    let y8: u16 = crc_step(y7);
    assert(crc_push(x8, hi) == y8) by {
        assert(crc_steps(y0, 8) == crc_steps(y1, 7));
        assert(crc_steps(y1, 7) == crc_steps(y2, 6));
        assert(crc_steps(y2, 6) == crc_steps(y3, 5));
        assert(crc_steps(y3, 5) == crc_steps(y4, 4));
        assert(crc_steps(y4, 4) == crc_steps(y5, 3));
        assert(crc_steps(y5, 3) == crc_steps(y6, 2));
        assert(crc_steps(y6, 2) == crc_steps(y7, 1));
        assert(crc_steps(y7, 1) == crc_steps(y8, 0));
    };
    lemma_crc_step_formula(x0);
    lemma_crc_step_formula(x1);
    lemma_crc_step_formula(x2);
    lemma_crc_step_formula(x3);
    lemma_crc_step_formula(x4);
    lemma_crc_step_formula(x5);
    lemma_crc_step_formula(x6);
    lemma_crc_step_formula(x7);
    lemma_crc_step_formula(y0);
    lemma_crc_step_formula(y1);
    lemma_crc_step_formula(y2);
    lemma_crc_step_formula(y3);
    lemma_crc_step_formula(y4);
    lemma_crc_step_formula(y5);
    lemma_crc_step_formula(y6);
    lemma_crc_step_formula(y7);
    assert(y8 == 0) by (bit_vector)
        requires
            lo == (c & 0xff) as u8,
            hi == ((c >> 8) & 0xff) as u8,
            x0 == c ^ (lo as u16),
            x1 == (x0 >> 1) ^ (((x0 & 1) * 0xA001) as u16),
            x2 == (x1 >> 1) ^ (((x1 & 1) * 0xA001) as u16),
            x3 == (x2 >> 1) ^ (((x2 & 1) * 0xA001) as u16),
            x4 == (x3 >> 1) ^ (((x3 & 1) * 0xA001) as u16),
            x5 == (x4 >> 1) ^ (((x4 & 1) * 0xA001) as u16),
            x6 == (x5 >> 1) ^ (((x5 & 1) * 0xA001) as u16),
            x7 == (x6 >> 1) ^ (((x6 & 1) * 0xA001) as u16),
            x8 == (x7 >> 1) ^ (((x7 & 1) * 0xA001) as u16),
            y0 == x8 ^ (hi as u16),
            y1 == (y0 >> 1) ^ (((y0 & 1) * 0xA001) as u16),
            y2 == (y1 >> 1) ^ (((y1 & 1) * 0xA001) as u16),
            y3 == (y2 >> 1) ^ (((y2 & 1) * 0xA001) as u16),
            y4 == (y3 >> 1) ^ (((y3 & 1) * 0xA001) as u16),
            y5 == (y4 >> 1) ^ (((y4 & 1) * 0xA001) as u16),
            y6 == (y5 >> 1) ^ (((y5 & 1) * 0xA001) as u16),
            y7 == (y6 >> 1) ^ (((y6 & 1) * 0xA001) as u16),
            y8 == (y7 >> 1) ^ (((y7 & 1) * 0xA001) as u16),
    ;
}

/// Folding one more byte into a checksum, stated over an appended sequence.
proof fn lemma_crc_from_push(seed: u16, s: Seq<u8>, b: u8)
    ensures
        crc_from(seed, s.push(b)) == crc_push(crc_from(seed, s), b),
{
    assert(s.push(b).drop_last() =~= s);
    assert(s.push(b).last() == b);
}

/// One CRC round distributes over xor.
proof fn lemma_crc_step_linear(u: u16, v: u16)
    ensures
        crc_step(u ^ v) == crc_step(u) ^ crc_step(v),
{
    assert(crc_step(u ^ v) == crc_step(u) ^ crc_step(v)) by (bit_vector);
}

/// Any number of CRC rounds distributes over xor.
proof fn lemma_crc_steps_linear(u: u16, v: u16, n: nat)
    ensures
        crc_steps(u ^ v, n) == crc_steps(u, n) ^ crc_steps(v, n),
    decreases n,
{
    if n > 0 {
        lemma_crc_step_linear(u, v);
        lemma_crc_steps_linear(crc_step(u), crc_step(v), (n - 1) as nat);
    }
}

/// Folding a byte into the checksum distributes over xor of both the
/// running value and the byte.
proof fn lemma_crc_push_linear(c1: u16, c2: u16, b1: u8, b2: u8)
    ensures
        crc_push(c1 ^ c2, b1 ^ b2) == crc_push(c1, b1) ^ crc_push(c2, b2),
{
    assert((c1 ^ c2) ^ (((b1 ^ b2) as u16)) == (c1 ^ (b1 as u16)) ^ (c2 ^ (b2 as u16)))
        by (bit_vector);
    lemma_crc_steps_linear(c1 ^ (b1 as u16), c2 ^ (b2 as u16), 8);
}

/// Folding a byte into the checksum yields zero exactly when the running
/// value equals that byte: the eight CRC rounds are a bijection, so only
/// the zero state stays at zero.
proof fn lemma_crc_push_zero_iff(c: u16, b: u8)
    ensures
        crc_push(c, b) == 0 <==> c == b as u16,
{
    let x0: u16 = c ^ (b as u16);
    let x1: u16 = crc_step(x0);
    let x2: u16 = crc_step(x1);
    let x3: u16 = crc_step(x2);
    let x4: u16 = crc_step(x3);
    let x5: u16 = crc_step(x4);
    let x6: u16 = crc_step(x5);
    let x7: u16 = crc_step(x6);
    let x8: u16 = crc_step(x7);
    assert(crc_push(c, b) == x8) by {
        assert(crc_steps(x0, 8) == crc_steps(x1, 7));
        assert(crc_steps(x1, 7) == crc_steps(x2, 6));
        assert(crc_steps(x2, 6) == crc_steps(x3, 5));
        assert(crc_steps(x3, 5) == crc_steps(x4, 4));
        assert(crc_steps(x4, 4) == crc_steps(x5, 3));
        assert(crc_steps(x5, 3) == crc_steps(x6, 2));
        assert(crc_steps(x6, 2) == crc_steps(x7, 1));
        assert(crc_steps(x7, 1) == crc_steps(x8, 0));
    };
    lemma_crc_step_formula(x0);
    lemma_crc_step_formula(x1);
    lemma_crc_step_formula(x2);
    lemma_crc_step_formula(x3);
    lemma_crc_step_formula(x4);
    lemma_crc_step_formula(x5);
    lemma_crc_step_formula(x6);
    lemma_crc_step_formula(x7);
    assert(x8 == 0 <==> c == b as u16) by (bit_vector)
        requires
            x0 == c ^ (b as u16),
            x1 == (x0 >> 1) ^ (((x0 & 1) * 0xA001) as u16),
            x2 == (x1 >> 1) ^ (((x1 & 1) * 0xA001) as u16),
            x3 == (x2 >> 1) ^ (((x2 & 1) * 0xA001) as u16),
            x4 == (x3 >> 1) ^ (((x3 & 1) * 0xA001) as u16),
            x5 == (x4 >> 1) ^ (((x4 & 1) * 0xA001) as u16),
            x6 == (x5 >> 1) ^ (((x5 & 1) * 0xA001) as u16),
            x7 == (x6 >> 1) ^ (((x6 & 1) * 0xA001) as u16),
            x8 == (x7 >> 1) ^ (((x7 & 1) * 0xA001) as u16),
    ;
}

/// The pointwise xor of two byte sequences of equal length.
pub open spec fn xor_bytes(a: Seq<u8>, b: Seq<u8>) -> Seq<u8>
    recommends
        a.len() == b.len(),
{
    Seq::new(a.len(), |k: int| a[k] ^ b[k])
}

/// The checksum is linear: xoring two inputs (and their seeds) xors their
/// checksums.
proof fn lemma_crc_from_linear(s1: u16, s2: u16, a: Seq<u8>, b: Seq<u8>)
    requires
        a.len() == b.len(),
    ensures
        crc_from(s1 ^ s2, xor_bytes(a, b)) == crc_from(s1, a) ^ crc_from(s2, b),
    decreases a.len(),
{
    if a.len() == 0 {
        assert(xor_bytes(a, b).len() == 0);
    } else {
        lemma_crc_from_linear(s1, s2, a.drop_last(), b.drop_last());
        assert(xor_bytes(a, b).drop_last() =~= xor_bytes(a.drop_last(), b.drop_last()));
        assert(xor_bytes(a, b).last() == a.last() ^ b.last());
        lemma_crc_push_linear(
            crc_from(s1, a.drop_last()),
            crc_from(s2, b.drop_last()),
            a.last(),
            b.last(),
        );
    }
}

/// A sequence of `n` bytes that is zero everywhere except for a single set
/// bit `j` in the byte at position `i`.
pub open spec fn single_bit_seq(n: nat, i: int, j: u8) -> Seq<u8> {
    Seq::new(n, |k: int| if k == i { (1u8 << j) as u8 } else { 0u8 })
}

/// From a zero running value, a span of zero bytes keeps the checksum zero.
proof fn lemma_crc_zeros(n: nat)
    ensures
        crc_from(0, Seq::new(n, |k: int| 0u8)) == 0,
    decreases n,
{
    if n > 0 {
        lemma_crc_zeros((n - 1) as nat);
        assert(Seq::new(n, |k: int| 0u8).drop_last() =~= Seq::new((n - 1) as nat, |k: int| 0u8));
        lemma_crc_push_zero_iff(0, 0);
    }
}

/// From a zero running value, a span holding exactly one set bit has a
/// non-zero checksum: no single-bit corruption cancels out.
proof fn lemma_crc_single_bit_nonzero(n: nat, i: int, j: u8)
    requires
        0 <= i < n,
        j < 8,
    ensures
        crc_from(0, single_bit_seq(n, i, j)) != 0,
    decreases n,
{
    let e = single_bit_seq(n, i, j);
    assert((1u8 << j) as u16 != 0) by (bit_vector)
        requires
            j < 8,
    ;
    if i == n - 1 {
        assert(e.drop_last() =~= Seq::new((n - 1) as nat, |k: int| 0u8));
        lemma_crc_zeros((n - 1) as nat);
        assert(e.last() == (1u8 << j) as u8);
        lemma_crc_push_zero_iff(0, (1u8 << j) as u8);
    } else {
        assert(e.drop_last() =~= single_bit_seq((n - 1) as nat, i, j));
        lemma_crc_single_bit_nonzero((n - 1) as nat, i, j);
        assert(e.last() == 0);
        lemma_crc_push_zero_iff(crc_from(0, e.drop_last()), 0);
    }
}

/// The high byte of a 16-bit word.
pub open spec fn hi_byte(v: u16) -> u8 {
    (v >> 8) as u8
}

/// The low byte of a 16-bit word.
pub open spec fn lo_byte(v: u16) -> u8 {
    (v & 0xff) as u8
}

/// The 16-bit word with high byte `hi` and low byte `lo`.
pub open spec fn word_from(hi: u8, lo: u8) -> u16 {
    ((hi as u16) << 8) | (lo as u16)
}

fn u16_to_u8_array(value: u16) -> (r: [u8; 2])
    ensures
        r@ =~= seq![hi_byte(value), lo_byte(value)],
{
    proof {
        assert((value >> 8) & 0xff < 256) by (bit_vector);
        assert(value & 0xff < 256) by (bit_vector);
        assert(((value >> 8) & 0xff) as u8 == (value >> 8) as u8) by (bit_vector);
    }
    let b1 = ((value >> 8) & 0xFF) as u8;
    let b0 = (value & 0xFF) as u8;
    [b1, b0]
}

fn u8_array_to_u16(arr: &[u8; 2]) -> (value: u16)
    ensures
        value == word_from(arr[0], arr[1]),
{
    let a0: u8 = arr[0];
    let a1: u8 = arr[1];
    proof {
        assert((a0 as u16) << 8 <= 0xff00) by (bit_vector);
        assert(((a0 as u16) << 8) + (a1 as u16)
            == ((a0 as u16) << 8) | (a1 as u16)) by (bit_vector);
    }
    let mut value: u16 = 0;
    value += (a0 as u16) << 8;
    value += a1 as u16;
    value
}

/// The slot of a frame that distinguishes request shape from reply shape: a
/// request carries the register address, a read reply carries a byte count.
#[derive(Clone, Copy, PartialEq, Eq, Structural, Debug)]
pub enum Reference {
    Size(u8),
    Address(u16),
}

/// One complete request or reply on the serial bus.
#[derive(Clone, Copy, PartialEq, Eq, Structural, Debug)]
pub struct ModbusFrame {
    pub unit_id: u8,
    pub command: u8,
    pub refers: Reference,
    pub value: u16,
}

/// Why a received span was rejected.
#[derive(Clone, Copy, PartialEq, Eq, Structural, Debug)]
pub enum DecodeError {
    BadChecksum,
}

/// Why a decoded request produced no reply.  `NotForThisUnit` is a routing
/// signal: the dispatcher tries the next unit.  The others mark a request
/// that no unit can serve; the frame is dropped without a reply.
#[derive(Clone, Copy, PartialEq, Eq, Structural, Debug)]
pub enum QueryError {
    NotForThisUnit,
    InvalidQuery,
    UnsupportedOperation,
}

/// The body of a frame before the checksum trailer: identifier, command,
/// reference (one byte for a size, two big-endian bytes for an address) and
/// the big-endian value.
pub open spec fn spec_payload(f: ModbusFrame) -> Seq<u8> {
    match f.refers {
        Reference::Size(s) => seq![
            f.unit_id,
            f.command,
            s,
            hi_byte(f.value),
            lo_byte(f.value),
        ],
        Reference::Address(a) => seq![
            f.unit_id,
            f.command,
            hi_byte(a),
            lo_byte(a),
            hi_byte(f.value),
            lo_byte(f.value),
        ],
    }
}

/// The full wire image of a frame: its payload followed by the CRC-16 of
/// that payload, low byte first.
pub open spec fn spec_encode(f: ModbusFrame) -> Seq<u8> {
    spec_payload(f) + seq![
        lo_byte(spec_crc16(spec_payload(f))),
        hi_byte(spec_crc16(spec_payload(f))),
    ]
}

/// What decoding a received span yields: the parsed frame when the checksum
/// of the whole span is zero (the reference always parsed as an address),
/// and a checksum error otherwise.
pub open spec fn spec_decode(b: Seq<u8>) -> Result<ModbusFrame, DecodeError>
    recommends
        b.len() >= 6,
{
    if spec_crc16(b) == 0 {
        Ok(ModbusFrame {
            unit_id: b[0],
            command: b[1],
            refers: Reference::Address(word_from(b[2], b[3])),
            value: word_from(b[4], b[5]),
        })
    } else {
        Err(DecodeError::BadChecksum)
    }
}

impl ModbusFrame {
    pub fn new(unit_id: u8, command: u8, refers: Reference, value: u16) -> (r: Self)
        ensures
            r == (ModbusFrame { unit_id, command, refers, value }),
    {
        Self { unit_id, command, refers, value }
    }

    /// Serializes the frame per the wire layout and appends the checksum.
    pub fn encode(&self) -> (out: Vec<u8>)
        ensures
            out@ == spec_encode(*self),
    {
        let mut out: Vec<u8> = Vec::new();
        out.push(self.unit_id);
        out.push(self.command);
        match self.refers {
            Reference::Size(s) => {
                out.push(s);
            },
            Reference::Address(adr) => {
                let tmp = u16_to_u8_array(adr);
                out.push(tmp[0]);
                out.push(tmp[1]);
            },
        }
        let tmp = u16_to_u8_array(self.value);
        out.push(tmp[0]);
        out.push(tmp[1]);
        proof {
            assert(out@ =~= spec_payload(*self));
        }
        let crc = calculate_crc16(out.as_slice());
        let crc = u16_to_u8_array(crc);
        out.push(crc[1]);
        out.push(crc[0]);
        proof {
            assert(out@ =~= spec_encode(*self));
        }
        out
    }

    /// Parses one frame's bytes, always reading the reference slot as an
    /// address; fails when the checksum over the whole span is non-zero.
    pub fn decode(buffer: &[u8]) -> (r: Result<Self, DecodeError>)
        requires
            buffer@.len() >= 6,
        ensures
            r == spec_decode(buffer@),
    {
        let crc = calculate_crc16(buffer);
        if crc != 0 {
            return Err(DecodeError::BadChecksum);
        }

        Ok(Self {
            unit_id: buffer[0],
            command: buffer[1],
            refers: Reference::Address(u8_array_to_u16(&[buffer[2], buffer[3]])),
            value: u8_array_to_u16(&[buffer[4], buffer[5]]),
        })
    }
}

/// The wire image of any frame passes the whole-span checksum test.
proof fn lemma_encode_crc_zero(f: ModbusFrame)
    ensures
        spec_crc16(spec_encode(f)) == 0,
{
    let p = spec_payload(f);
    let c = spec_crc16(p);
    let e = spec_encode(f);
    assert(e =~= p.push(lo_byte(c)).push(hi_byte(c)));
    lemma_crc_from_push(0xFFFF, p, lo_byte(c));
    lemma_crc_from_push(0xFFFF, p.push(lo_byte(c)), hi_byte(c));
    lemma_crc_trailer_zero(c);
    assert(lo_byte(c) == (c & 0xff) as u8) by (bit_vector);
    assert(hi_byte(c) == ((c >> 8) & 0xff) as u8) by (bit_vector);
}

/// Round trip: decoding the wire image of any frame whose reference is an
/// address yields that very frame back, unit id, command, address and value
/// alike.
pub proof fn lemma_encode_decode_round_trip(f: ModbusFrame)
    requires
        f.refers is Address,
    ensures
        spec_decode(spec_encode(f)) == Ok::<ModbusFrame, DecodeError>(f),
{
    let p = spec_payload(f);
    let c = spec_crc16(p);
    let e = spec_encode(f);
    lemma_encode_crc_zero(f);
    match f.refers {
        Reference::Address(a) => {
            assert(e[0] == f.unit_id);
            assert(e[1] == f.command);
            assert(e[2] == hi_byte(a) && e[3] == lo_byte(a));
            assert(e[4] == hi_byte(f.value) && e[5] == lo_byte(f.value));
            let v = f.value;
            assert(word_from(hi_byte(a), lo_byte(a)) == a) by (bit_vector);
            assert(word_from(hi_byte(v), lo_byte(v)) == v) by (bit_vector);
        },
        Reference::Size(_) => {
            assert(false);
        },
    }
}

/// Checksum sensitivity: flipping any single bit anywhere in the wire image
/// of any frame, checksum bytes included, makes decoding fail with a
/// checksum error.
pub proof fn lemma_bit_flip_detected(f: ModbusFrame, i: int, j: u8)
    requires
        0 <= i < spec_encode(f).len(),
        j < 8,
    ensures
        spec_decode(spec_encode(f).update(i, spec_encode(f)[i] ^ (1u8 << j)))
            == Err::<ModbusFrame, DecodeError>(DecodeError::BadChecksum),
{
    let e = spec_encode(f);
    let n = e.len();
    let flipped = e.update(i, e[i] ^ (1u8 << j));
    assert(forall|b: u8| #[trigger] (b ^ 0) == b) by (bit_vector);
    assert(flipped =~= xor_bytes(e, single_bit_seq(n, i, j)));
    lemma_crc_from_linear(0xFFFF, 0, e, single_bit_seq(n, i, j));
    lemma_encode_crc_zero(f);
    lemma_crc_single_bit_nonzero(n, i, j);
    assert(0xFFFFu16 ^ 0 == 0xFFFF) by (bit_vector);
    let z = crc_from(0, single_bit_seq(n, i, j));
    assert(0u16 ^ z == z) by (bit_vector);
}

} // verus!
