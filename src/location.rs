//! Where a field sits in a report, and how its bits are taken out.
use vstd::prelude::*;

verus! {

/// The value of bits `lo..hi` of `v`, shifted down to bit 0.
pub open spec fn bit_field(v: u8, lo: u8, hi: u8) -> u8 {
    (((v >> lo) as u16) & ((1u16 << (hi - lo) as u16) - 1u16) as u16) as u8
}

proof fn lemma_bit_field_step(v: u8, lo: u8, i: u8, out: u8)
    requires
        lo <= i < 8,
        out == bit_field(v, lo, i),
    ensures
        (out | (((v & (1u8 << i)) >> i) << (i - lo) as u8)) == bit_field(v, lo, (i + 1) as u8),
{
    assert(lo <= i < 8 && out == bit_field(v, lo, i) ==> (out | (((v & (1u8 << i)) >> i) << (i
        - lo) as u8)) == bit_field(v, lo, (i + 1) as u8)) by (bit_vector);
}

/// Bits `lo..hi` of `value`, right-justified: each bit of the range is isolated and
/// moved to its place in an accumulator.
pub fn extract_bits(value: u8, lo: usize, hi: usize) -> (r: u8)
    requires
        lo < hi <= 8,
    ensures
        r == bit_field(value, lo as u8, hi as u8),
{
    let mut out: u8 = 0;
    let mut i: usize = lo;
    proof {
        let l = lo as u8;
        assert(bit_field(value, l, l) == 0) by (bit_vector);
    }
    while i < hi
        invariant
            lo <= i <= hi <= 8,
            out == bit_field(value, lo as u8, i as u8),
        decreases hi - i,
    {
        let s: u8 = i as u8;
        let current_bit: u8 = (value & (1u8 << s)) >> s;
        proof {
            lemma_bit_field_step(value, lo as u8, s, out);
        }
        out = out | (current_bit << (s - lo as u8));
        i = i + 1;
    }
    out
}

/// A field's place in a report: the half-open byte range `byte_start..byte_end`,
/// and the half-open bit range `bit_start..bit_end` within its first byte.
#[derive(Clone, Copy, PartialEq, Eq, Debug, Structural)]
pub struct Offset {
    pub byte_start: usize,
    pub byte_end: usize,
    pub bit_start: usize,
    pub bit_end: usize,
}

impl Offset {
    /// A non-empty bit range inside one byte, over a non-empty byte range that is
    /// a single byte unless the field takes whole bytes.
    pub open spec fn wf(self) -> bool {
        &&& self.bit_start < self.bit_end <= 8
        &&& self.byte_start < self.byte_end
        &&& (self.whole_byte() || self.byte_end == self.byte_start + 1)
    }

    pub open spec fn whole_byte(self) -> bool {
        self.bit_start == 0 && self.bit_end == 8
    }

    /// Whole bytes `start..end`.
    pub fn bytes(start: usize, end: usize) -> (r: Offset)
        ensures
            r == (Offset { byte_start: start, byte_end: end, bit_start: 0, bit_end: 8 }),
    {
        Offset { byte_start: start, byte_end: end, bit_start: 0, bit_end: 8 }
    }

    /// Bits `lo..hi` of the byte at `byte`.
    pub fn bits(byte: usize, lo: usize, hi: usize) -> (r: Offset)
        requires
            byte < usize::MAX,
        ensures
            r == (Offset { byte_start: byte, byte_end: (byte + 1) as usize, bit_start: lo, bit_end: hi }),
    {
        Offset { byte_start: byte, byte_end: byte + 1, bit_start: lo, bit_end: hi }
    }

    /// The whole byte at `byte`.
    pub fn byte(byte: usize) -> (r: Offset)
        requires
            byte < usize::MAX,
        ensures
            r == (Offset { byte_start: byte, byte_end: (byte + 1) as usize, bit_start: 0, bit_end: 8 }),
    {
        Offset { byte_start: byte, byte_end: byte + 1, bit_start: 0, bit_end: 8 }
    }

    /// Bit `bit` of the byte at `byte`.
    pub fn bit(byte: usize, bit: usize) -> (r: Offset)
        requires
            byte < usize::MAX,
            bit < usize::MAX,
        ensures
            r == (Offset {
                byte_start: byte,
                byte_end: (byte + 1) as usize,
                bit_start: bit,
                bit_end: (bit + 1) as usize,
            }),
    {
        Offset { byte_start: byte, byte_end: byte + 1, bit_start: bit, bit_end: bit + 1 }
    }

    pub fn is_whole_byte(&self) -> (r: bool)
        ensures
            r == self.whole_byte(),
    {
        self.bit_start == 0 && self.bit_end == 8
    }

    pub fn is_single_byte(&self) -> (r: bool)
        ensures
            r == (self.byte_end == self.byte_start + 1),
    {
        self.byte_start < self.byte_end && self.byte_end - self.byte_start == 1
    }
}

/// The bytes that a field at `off` hands to its conversion: the byte range itself
/// for a whole-byte field, else the one byte holding its bits right-justified.
pub open spec fn field_bytes(off: Offset, report: Seq<u8>) -> Seq<u8> {
    if off.whole_byte() {
        report.subrange(off.byte_start as int, off.byte_end as int)
    } else {
        seq![bit_field(report[off.byte_start as int], off.bit_start as u8, off.bit_end as u8)]
    }
}

/// Takes the field at `off` out of `report` (see `field_bytes`).
pub fn extract(off: &Offset, report: &[u8; 64]) -> (r: Vec<u8>)
    requires
        off.wf(),
        off.byte_end <= 64,
    ensures
        r@ == field_bytes(*off, report@),
{
    if off.is_whole_byte() {
        let mut out: Vec<u8> = Vec::new();
        let mut i: usize = off.byte_start;
        while i < off.byte_end
            invariant
                off.byte_start <= i <= off.byte_end <= 64,
                out@ == report@.subrange(off.byte_start as int, i as int),
            decreases off.byte_end - i,
        {
            out.push(report[i]);
            i = i + 1;
        }
        out
    } else {
        let b = extract_bits(report[off.byte_start], off.bit_start, off.bit_end);
        vec![b]
    }
}

} // verus!
