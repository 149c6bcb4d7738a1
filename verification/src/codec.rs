use vstd::prelude::*;

verus! {

/// The little-endian encoding of a 64-bit value: eight bytes, least
/// significant first.
pub open spec fn u64_le(v: u64) -> Seq<u8> {
    seq![
        (v % 0x100) as u8,
        ((v / 0x100) % 0x100) as u8,
        ((v / 0x1_0000) % 0x100) as u8,
        ((v / 0x100_0000) % 0x100) as u8,
        ((v / 0x1_0000_0000) % 0x100) as u8,
        ((v / 0x100_0000_0000) % 0x100) as u8,
        ((v / 0x1_0000_0000_0000) % 0x100) as u8,
        ((v / 0x100_0000_0000_0000) % 0x100) as u8,
    ]
}

/// The value of eight little-endian bytes.
pub open spec fn le64_val(s: Seq<u8>) -> int
    recommends
        s.len() == 8,
{
    s[0] + s[1] * 0x100 + s[2] * 0x1_0000 + s[3] * 0x100_0000 + s[4] * 0x1_0000_0000 + s[5]
        * 0x100_0000_0000 + s[6] * 0x1_0000_0000_0000 + s[7] * 0x100_0000_0000_0000
}

/// Serializes `v` as eight little-endian bytes.
pub fn u64_le_bytes(v: u64) -> (r: Vec<u8>)
    ensures
        r@ == u64_le(v),
{
    let mut r: Vec<u8> = Vec::new();
    r.push((v % 0x100) as u8);
    r.push(((v / 0x100) % 0x100) as u8);
    r.push(((v / 0x1_0000) % 0x100) as u8);
    r.push(((v / 0x100_0000) % 0x100) as u8);
    r.push(((v / 0x1_0000_0000) % 0x100) as u8);
    r.push(((v / 0x100_0000_0000) % 0x100) as u8);
    r.push(((v / 0x1_0000_0000_0000) % 0x100) as u8);
    r.push(((v / 0x100_0000_0000_0000) % 0x100) as u8);
    proof {
        assert(r@ =~= u64_le(v));
    }
    r
}

/// Serializes a non-negative timestamp as eight little-endian bytes, the
/// two's-complement encoding a 64-bit signed integer would get.
pub fn i64_le_bytes(v: i64) -> (r: Vec<u8>)
    requires
        v >= 0,
    ensures
        r@ == u64_le(v as u64),
{
    u64_le_bytes(v as u64)
}

/// Reads the eight bytes starting at `start` as a little-endian 64-bit value.
pub fn read_u64_le(bytes: &Vec<u8>, start: usize) -> (r: u64)
    requires
        start + 8 <= bytes@.len(),
    ensures
        r as int == le64_val(bytes@.subrange(start as int, start as int + 8)),
{
    let n = bytes.len();
    proof {
        assert(start + 8 <= n);
    }
    let b0 = bytes[start] as u64;
    let b1 = bytes[start + 1] as u64;
    let b2 = bytes[start + 2] as u64;
    let b3 = bytes[start + 3] as u64;
    let b4 = bytes[start + 4] as u64;
    let b5 = bytes[start + 5] as u64;
    let b6 = bytes[start + 6] as u64;
    let b7 = bytes[start + 7] as u64;
    let r = b0 + b1 * 0x100 + b2 * 0x1_0000 + b3 * 0x100_0000 + b4 * 0x1_0000_0000 + b5
        * 0x100_0000_0000 + b6 * 0x1_0000_0000_0000 + b7 * 0x100_0000_0000_0000;
    proof {
        let s = bytes@.subrange(start as int, start as int + 8);
        assert(s[0] == bytes@[start as int]);
        assert(s[1] == bytes@[start as int + 1]);
        assert(s[2] == bytes@[start as int + 2]);
        assert(s[3] == bytes@[start as int + 3]);
        assert(s[4] == bytes@[start as int + 4]);
        assert(s[5] == bytes@[start as int + 5]);
        assert(s[6] == bytes@[start as int + 6]);
        assert(s[7] == bytes@[start as int + 7]);
    }
    r
}

} // verus!
