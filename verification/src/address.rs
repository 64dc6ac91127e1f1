//! IPv6 addresses as eight 16-bit segments, and the prefix/suffix merge.

use vstd::prelude::*;

verus! {

/// An IPv6 address, held as its 128 bits with the first segment in the most
/// significant position (the numeric form of the address).
#[derive(Clone, Copy, Debug, PartialEq, Eq, Structural)]
pub struct Address {
    pub bits: u128,
}

/// The segment of `bits` at `index`, counted from the most significant end.
pub open spec fn segment_of(bits: u128, index: int) -> u16 {
    if index == 0 {
        (bits >> 112) as u16
    } else if index == 1 {
        ((bits >> 96) & 0xffff) as u16
    } else if index == 2 {
        ((bits >> 80) & 0xffff) as u16
    } else if index == 3 {
        ((bits >> 64) & 0xffff) as u16
    } else if index == 4 {
        ((bits >> 48) & 0xffff) as u16
    } else if index == 5 {
        ((bits >> 32) & 0xffff) as u16
    } else if index == 6 {
        ((bits >> 16) & 0xffff) as u16
    } else {
        (bits & 0xffff) as u16
    }
}

impl View for Address {
    type V = Seq<u16>;

    /// The eight segments, in the order in which the address is written.
    open spec fn view(&self) -> Seq<u16> {
        Seq::new(8, |index: int| segment_of(self.bits, index))
    }
}

/// The bits of the address whose segments are `a` to `h`.
pub open spec fn bits_of(a: u16, b: u16, c: u16, d: u16, e: u16, f: u16, g: u16, h: u16) -> u128 {
    ((a as u128) << 112) | ((b as u128) << 96) | ((c as u128) << 80) | ((d as u128) << 64) | ((e as u128)
        << 48) | ((f as u128) << 32) | ((g as u128) << 16) | (h as u128)
}

/// Joining eight segments and taking them apart again gives the same segments.
pub proof fn lemma_segments_of_bits(a: u16, b: u16, c: u16, d: u16, e: u16, f: u16, g: u16, h: u16)
    ensures
        segment_of(bits_of(a, b, c, d, e, f, g, h), 0) == a,
        segment_of(bits_of(a, b, c, d, e, f, g, h), 1) == b,
        segment_of(bits_of(a, b, c, d, e, f, g, h), 2) == c,
        segment_of(bits_of(a, b, c, d, e, f, g, h), 3) == d,
        segment_of(bits_of(a, b, c, d, e, f, g, h), 4) == e,
        segment_of(bits_of(a, b, c, d, e, f, g, h), 5) == f,
        segment_of(bits_of(a, b, c, d, e, f, g, h), 6) == g,
        segment_of(bits_of(a, b, c, d, e, f, g, h), 7) == h,
{
    let x = bits_of(a, b, c, d, e, f, g, h);
    assert((x >> 112) as u16 == a && ((x >> 96) & 0xffff) as u16 == b && ((x >> 80) & 0xffff) as u16
        == c && ((x >> 64) & 0xffff) as u16 == d) by (bit_vector)
        requires
            x == ((a as u128) << 112) | ((b as u128) << 96) | ((c as u128) << 80) | ((d as u128)
                << 64) | ((e as u128) << 48) | ((f as u128) << 32) | ((g as u128) << 16) | (
            h as u128),
    ;
    assert(((x >> 48) & 0xffff) as u16 == e && ((x >> 32) & 0xffff) as u16 == f && ((x >> 16)
        & 0xffff) as u16 == g && (x & 0xffff) as u16 == h) by (bit_vector)
        requires
            x == ((a as u128) << 112) | ((b as u128) << 96) | ((c as u128) << 80) | ((d as u128)
                << 64) | ((e as u128) << 48) | ((f as u128) << 32) | ((g as u128) << 16) | (
            h as u128),
    ;
}

/// Taking an address apart and joining the segments again gives the same bits.
pub proof fn lemma_bits_of_segments(bits: u128)
    ensures
        bits_of(
            segment_of(bits, 0),
            segment_of(bits, 1),
            segment_of(bits, 2),
            segment_of(bits, 3),
            segment_of(bits, 4),
            segment_of(bits, 5),
            segment_of(bits, 6),
            segment_of(bits, 7),
        ) == bits,
{
    assert(((((bits >> 112) as u16) as u128) << 112) | (((((bits >> 96) & 0xffff) as u16) as u128)
        << 96) | (((((bits >> 80) & 0xffff) as u16) as u128) << 80) | (((((bits >> 64)
        & 0xffff) as u16) as u128) << 64) | (((((bits >> 48) & 0xffff) as u16) as u128) << 48) | (((((
    bits >> 32) & 0xffff) as u16) as u128) << 32) | (((((bits >> 16) & 0xffff) as u16) as u128)
        << 16) | (((bits & 0xffff) as u16) as u128) == bits) by (bit_vector);
}

/// Two addresses with the same segments are the same address.
pub proof fn lemma_view_determines_address(x: Address, y: Address)
    requires
        x@ == y@,
    ensures
        x == y,
{
    assert forall|index: int| 0 <= index < 8 implies segment_of(x.bits, index) == segment_of(
        y.bits,
        index,
    ) by {
        assert(x@[index] == segment_of(x.bits, index));
        assert(y@[index] == segment_of(y.bits, index));
    }
    lemma_bits_of_segments(x.bits);
    lemma_bits_of_segments(y.bits);
}

impl Address {
    /// The address whose eight segments are `a` to `h`, in the order in which
    /// the address is written.
    pub fn new(a: u16, b: u16, c: u16, d: u16, e: u16, f: u16, g: u16, h: u16) -> (address: Address)
        ensures
            address.bits == bits_of(a, b, c, d, e, f, g, h),
            address@ == seq![a, b, c, d, e, f, g, h],
    {
        let bits: u128 = ((a as u128) << 112) | ((b as u128) << 96) | ((c as u128) << 80) | ((
        d as u128) << 64) | ((e as u128) << 48) | ((f as u128) << 32) | ((g as u128) << 16) | (
        h as u128);
        let address = Address { bits };
        proof {
            lemma_segments_of_bits(a, b, c, d, e, f, g, h);
            assert(address@ =~= seq![a, b, c, d, e, f, g, h]);
        }
        address
    }

    /// The eight segments of the address.
    pub fn segments(&self) -> (segments: [u16; 8])
        ensures
            segments@ == self@,
    {
        let bits: u128 = self.bits;
        assert(bits >> 112 <= 0xffff) by (bit_vector);
        assert((bits >> 96) & 0xffff <= 0xffff && (bits >> 80) & 0xffff <= 0xffff && (bits >> 64)
            & 0xffff <= 0xffff && (bits >> 48) & 0xffff <= 0xffff && (bits >> 32) & 0xffff
            <= 0xffff && (bits >> 16) & 0xffff <= 0xffff && bits & 0xffff <= 0xffff)
            by (bit_vector);
        let segments: [u16; 8] = [
            (bits >> 112) as u16,
            ((bits >> 96) & 0xffff) as u16,
            ((bits >> 80) & 0xffff) as u16,
            ((bits >> 64) & 0xffff) as u16,
            ((bits >> 48) & 0xffff) as u16,
            ((bits >> 32) & 0xffff) as u16,
            ((bits >> 16) & 0xffff) as u16,
            (bits & 0xffff) as u16,
        ];
        assert(segments@ =~= self@);
        segments
    }
}

/// The address that has the first four segments of `prefix` and the last four
/// of `suffix`.
pub open spec fn merged(prefix: Address, suffix: Address) -> Address {
    Address {
        bits: bits_of(
            segment_of(prefix.bits, 0),
            segment_of(prefix.bits, 1),
            segment_of(prefix.bits, 2),
            segment_of(prefix.bits, 3),
            segment_of(suffix.bits, 4),
            segment_of(suffix.bits, 5),
            segment_of(suffix.bits, 6),
            segment_of(suffix.bits, 7),
        ),
    }
}

/// The segments of a merged address: four of the prefix, then four of the
/// suffix. The upper 64 bits are those of the prefix and the lower 64 bits
/// those of the suffix.
pub proof fn lemma_merged_segments(prefix: Address, suffix: Address)
    ensures
        merged(prefix, suffix)@ == prefix@.subrange(0, 4) + suffix@.subrange(4, 8),
        merged(prefix, suffix).bits >> 64 == prefix.bits >> 64,
        merged(prefix, suffix).bits & 0xffff_ffff_ffff_ffff == suffix.bits & 0xffff_ffff_ffff_ffff,
        merged(prefix, suffix).bits == (prefix.bits & 0xffff_ffff_ffff_ffff_0000_0000_0000_0000) | (
        suffix.bits & 0xffff_ffff_ffff_ffff),
{
    let p = prefix.bits;
    let s = suffix.bits;
    let m = merged(prefix, suffix).bits;
    lemma_segments_of_bits(
        segment_of(p, 0),
        segment_of(p, 1),
        segment_of(p, 2),
        segment_of(p, 3),
        segment_of(s, 4),
        segment_of(s, 5),
        segment_of(s, 6),
        segment_of(s, 7),
    );
    assert(merged(prefix, suffix)@ =~= prefix@.subrange(0, 4) + suffix@.subrange(4, 8));
    assert(m == (p & 0xffff_ffff_ffff_ffff_0000_0000_0000_0000) | (s & 0xffff_ffff_ffff_ffff))
        by (bit_vector)
        requires
            m == ((((p >> 112) as u16) as u128) << 112) | (((((p >> 96) & 0xffff) as u16) as u128)
                << 96) | (((((p >> 80) & 0xffff) as u16) as u128) << 80) | (((((p >> 64)
                & 0xffff) as u16) as u128) << 64) | (((((s >> 48) & 0xffff) as u16) as u128)
                << 48) | (((((s >> 32) & 0xffff) as u16) as u128) << 32) | (((((s >> 16)
                & 0xffff) as u16) as u128) << 16) | (((s & 0xffff) as u16) as u128),
    ;
    assert(m >> 64 == p >> 64 && m & 0xffff_ffff_ffff_ffff == s & 0xffff_ffff_ffff_ffff)
        by (bit_vector)
        requires
            m == (p & 0xffff_ffff_ffff_ffff_0000_0000_0000_0000) | (s & 0xffff_ffff_ffff_ffff),
    ;
}

/// A merged address depends on nothing but the first four segments of the
/// prefix and the last four of the suffix: whatever the prefix holds in its
/// last four segments, and the suffix in its first four, is discarded.
pub proof fn lemma_merge_discards_other_halves(
    prefix: Address,
    suffix: Address,
    other_prefix: Address,
    other_suffix: Address,
)
    requires
        prefix@.subrange(0, 4) == other_prefix@.subrange(0, 4),
        suffix@.subrange(4, 8) == other_suffix@.subrange(4, 8),
    ensures
        merged(prefix, suffix) == merged(other_prefix, other_suffix),
{
    lemma_merged_segments(prefix, suffix);
    lemma_merged_segments(other_prefix, other_suffix);
    lemma_view_determines_address(merged(prefix, suffix), merged(other_prefix, other_suffix));
}

/// Combines the network prefix of `prefix` with the host part of `suffix`:
/// the result has the first four segments of `prefix` and the last four of
/// `suffix`. Neither argument is validated; the last four segments of
/// `prefix` and the first four of `suffix` are ignored.
pub fn merge_ips(prefix: Address, suffix: Address) -> (address: Address)
    ensures
        address == merged(prefix, suffix),
        address@ == prefix@.subrange(0, 4) + suffix@.subrange(4, 8),
        address.bits >> 64 == prefix.bits >> 64,
        address.bits & 0xffff_ffff_ffff_ffff == suffix.bits & 0xffff_ffff_ffff_ffff,
{
    proof {
        lemma_merged_segments(prefix, suffix);
    }
    Address {
        bits: (prefix.bits & 0xffff_ffff_ffff_ffff_0000_0000_0000_0000) | (suffix.bits
            & 0xffff_ffff_ffff_ffff),
    }
}

} // verus!
