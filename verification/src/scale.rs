use vstd::prelude::*;

verus! {

/// The four bytes of a 32-bit value, most significant first.
pub open spec fn be_u32(n: int) -> Seq<u8> {
    seq![
        ((n / 0x1000000) % 256) as u8,
        ((n / 0x10000) % 256) as u8,
        ((n / 0x100) % 256) as u8,
        (n % 256) as u8,
    ]
}

/// The eight bytes of a 64-bit value, most significant first.
pub open spec fn be_u64(n: int) -> Seq<u8> {
    seq![
        ((n / 0x100000000000000) % 256) as u8,
        ((n / 0x1000000000000) % 256) as u8,
        ((n / 0x10000000000) % 256) as u8,
        ((n / 0x100000000) % 256) as u8,
        ((n / 0x1000000) % 256) as u8,
        ((n / 0x10000) % 256) as u8,
        ((n / 0x100) % 256) as u8,
        (n % 256) as u8,
    ]
}

/// Big-endian rendering of a 32-bit value, as the payload uses for the
/// runtime spec and transaction versions.
pub fn u32_be_bytes(n: u32) -> (r: Vec<u8>)
    ensures
        r@ == be_u32(n as int),
{
    let mut v: Vec<u8> = Vec::new();
    v.push(((n / 0x1000000) % 256) as u8);
    v.push(((n / 0x10000) % 256) as u8);
    v.push(((n / 0x100) % 256) as u8);
    v.push((n % 256) as u8);
    assert(v@ =~= be_u32(n as int));
    v
}

/// Big-endian rendering of a 64-bit value, as the payload uses for the
/// account nonce.
pub fn u64_be_bytes(n: u64) -> (r: Vec<u8>)
    ensures
        r@ == be_u64(n as int),
{
    let mut v: Vec<u8> = Vec::new();
    v.push(((n / 0x100000000000000) % 256) as u8);
    v.push(((n / 0x1000000000000) % 256) as u8);
    v.push(((n / 0x10000000000) % 256) as u8);
    v.push(((n / 0x100000000) % 256) as u8);
    v.push(((n / 0x1000000) % 256) as u8);
    v.push(((n / 0x10000) % 256) as u8);
    v.push(((n / 0x100) % 256) as u8);
    v.push((n % 256) as u8);
    assert(v@ =~= be_u64(n as int));
    v
}

/// The four bytes of a 32-bit value, least significant first.
pub open spec fn le_u32(n: int) -> Seq<u8> {
    seq![
        (n % 256) as u8,
        ((n / 0x100) % 256) as u8,
        ((n / 0x10000) % 256) as u8,
        ((n / 0x1000000) % 256) as u8,
    ]
}

/// The canonical compact (variable-width) encoding of an unsigned 32-bit
/// value: the two low bits of the first byte select the width.
pub open spec fn compact_u32(n: int) -> Seq<u8> {
    if n < 0x40 {
        seq![(n * 4) as u8]
    } else if n < 0x4000 {
        seq![((n * 4 + 1) % 256) as u8, ((n * 4 + 1) / 256) as u8]
    } else if n < 0x40000000 {
        le_u32(n * 4 + 2)
    } else {
        seq![3u8] + le_u32(n)
    }
}

/// Compact-encodes a 32-bit count, as the chain's canonical binary format
/// prefixes every length.
pub fn compact_u32_encoded(n: u32) -> (r: Vec<u8>)
    ensures
        r@ == compact_u32(n as int),
{
    let mut v: Vec<u8> = Vec::new();
    if n < 0x40 {
        v.push((n * 4) as u8);
        assert(v@ =~= compact_u32(n as int));
    } else if n < 0x4000 {
        let m: u32 = n * 4 + 1;
        v.push((m % 256) as u8);
        v.push((m / 256) as u8);
        assert(v@ =~= compact_u32(n as int));
    } else if n < 0x40000000 {
        let m: u32 = n * 4 + 2;
        v.push((m % 256) as u8);
        v.push(((m / 0x100) % 256) as u8);
        v.push(((m / 0x10000) % 256) as u8);
        v.push(((m / 0x1000000) % 256) as u8);
        assert(v@ =~= compact_u32(n as int));
    } else {
        v.push(3u8);
        v.push((n % 256) as u8);
        v.push(((n / 0x100) % 256) as u8);
        v.push(((n / 0x10000) % 256) as u8);
        v.push(((n / 0x1000000) % 256) as u8);
        assert(v@ =~= compact_u32(n as int));
    }
    v
}

/// The canonical binary encoding of the immortal transaction lifetime
/// marker: a single zero byte.
pub open spec fn era_immortal() -> Seq<u8> {
    seq![0u8]
}

/// The encoded immortal era, as the payload's `era` field carries it.
pub fn era_immortal_encoded() -> (r: Vec<u8>)
    ensures
        r@ == era_immortal(),
{
    let mut v: Vec<u8> = Vec::new();
    v.push(0u8);
    assert(v@ =~= era_immortal());
    v
}

/// The compact encoding of a zero tip: this pipeline never tips, and zero
/// compact-encodes to a single zero byte at every width.
pub fn tip_zero_encoded() -> (r: Vec<u8>)
    ensures
        r@ == compact_u32(0),
{
    let mut v: Vec<u8> = Vec::new();
    v.push(0u8);
    assert(v@ =~= compact_u32(0));
    v
}

/// The canonical binary encoding of a byte sequence: its length
/// compact-encoded, then the bytes themselves.
pub open spec fn encoded_bytes(data: Seq<u8>) -> Seq<u8> {
    compact_u32(data.len() as int) + data
}

/// Encodes a byte sequence in the chain's canonical binary format, length
/// prefix first, as the bounded metadata field of a call is encoded.
pub fn encode_bounded_bytes(data: &Vec<u8>) -> (r: Vec<u8>)
    requires
        data@.len() <= 0xFFFFFFFF,
    ensures
        r@ == encoded_bytes(data@),
{
    let mut v: Vec<u8> = compact_u32_encoded(data.len() as u32);
    let mut i: usize = 0;
    while i < data.len()
        invariant
            i <= data@.len(),
            data@.len() <= 0xFFFFFFFF,
            v@ == compact_u32(data@.len() as int) + data@.take(i as int),
        decreases data@.len() - i,
    {
        v.push(data[i]);
        assert(data@.take(i + 1 as int) =~= data@.take(i as int) + seq![data@[i as int]]);
        i = i + 1;
    }
    assert(data@.take(data@.len() as int) =~= data@);
    v
}

} // verus!
