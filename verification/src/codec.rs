use vstd::prelude::*;

verus! {

/// Values shorter than this many bytes are stored inline in one `u64` entry;
/// longer ones are stored as blobs.
pub const INLINE_LIMIT: usize = 8;

/// The number whose little-endian bytes are `s`.
pub open spec fn le_value(s: Seq<u8>) -> nat
    decreases s.len(),
{
    if s.len() == 0 {
        0
    } else {
        s[0] as nat + 256 * le_value(s.drop_first())
    }
}

/// `256` to the power `n`: one more than the largest value that `n` bytes hold.
pub open spec fn byte_span(n: nat) -> nat
    decreases n,
{
    if n == 0 {
        1
    } else {
        256 * byte_span((n - 1) as nat)
    }
}

/// The `u64` entry that holds an inline value: the value's bytes, little-endian,
/// from the second byte on, and the value's length in the lowest byte.
pub open spec fn inline_entry(s: Seq<u8>) -> int {
    (256 * le_value(s) + s.len()) as int
}

/// The length that an inline entry records: its lowest byte.
pub open spec fn entry_len(entry: u64) -> nat {
    (entry & 0xff) as nat
}

/// The bit position, within the entry shifted right by one byte, from which
/// the `i`-th byte of an inline value is read back.
///
/// The first five bytes are read from where they were written; the sixth is
/// read from the position of the seventh, and the seventh from beyond the
/// entry's last byte, so it always reads as zero.
pub open spec fn read_shift(i: int) -> u64 {
    if i < 5 {
        (8 * i) as u64
    } else {
        (8 * i + 8) as u64
    }
}

/// The bytes that an inline entry is read back as.
pub open spec fn inline_bytes(entry: u64) -> Seq<u8> {
    Seq::new(entry_len(entry), |i: int| (((entry >> 8u64) >> read_shift(i)) & 0xffu64) as u8)
}

pub proof fn lemma_byte_span_monotonic(a: nat, b: nat)
    requires
        a <= b,
    ensures
        byte_span(a) <= byte_span(b),
    decreases b,
{
    if a < b {
        lemma_byte_span_monotonic(a, (b - 1) as nat);
    }
}

pub proof fn lemma_byte_span_seven()
    ensures
        byte_span(7) == 0x100_0000_0000_0000,
{
    reveal_with_fuel(byte_span, 8);
}

/// The little-endian value of `s` is below `256` to the power of its length.
pub proof fn lemma_le_value_bound(s: Seq<u8>)
    ensures
        le_value(s) < byte_span(s.len()),
    decreases s.len(),
{
    if s.len() > 0 {
        lemma_le_value_bound(s.drop_first());
    }
}

proof fn lemma_shift_or(acc: u64, b: u64)
    requires
        acc < 0x100_0000_0000_0000,
        b < 256,
    ensures
        (acc << 8u64) | b == 256 * acc + b,
{
    assert((acc << 8u64) | b == 256 * acc + b) by (bit_vector)
        requires
            acc < 0x100_0000_0000_0000,
            b < 256,
    ;
}

proof fn lemma_split_low_byte(y: u64, b: u64, z: u64)
    requires
        b < 256,
        z < 0x100_0000_0000_0000,
        y == b + 256 * z,
    ensures
        y & 0xffu64 == b,
        y >> 8u64 == z,
{
    assert(y & 0xffu64 == b && y >> 8u64 == z) by (bit_vector)
        requires
            b < 256,
            z < 0x100_0000_0000_0000,
            y == b + 256 * z,
    ;
}

proof fn lemma_shift_compose(y: u64, k: u64)
    requires
        1 <= k <= 7,
    ensures
        (y >> 8u64) >> ((8 * (k - 1)) as u64) == y >> ((8 * k) as u64),
{
    assert((y >> 8u64) >> ((8 * (k - 1)) as u64) == y >> ((8 * k) as u64)) by (bit_vector)
        requires
            1 <= k <= 7,
    ;
}

/// Byte `i` of the little-endian value of `s` is `s[i]`.
proof fn lemma_le_value_byte(s: Seq<u8>, i: int)
    requires
        s.len() <= 7,
        0 <= i < s.len(),
    ensures
        (((le_value(s) as u64) >> ((8 * i) as u64)) & 0xffu64) == s[i] as u64,
    decreases i,
{
    let t = s.drop_first();
    lemma_le_value_bound(t);
    lemma_byte_span_monotonic(t.len(), 7);
    lemma_byte_span_seven();
    let y = le_value(s) as u64;
    lemma_split_low_byte(y, s[0] as u64, le_value(t) as u64);
    if i == 0 {
        assert(y >> 0u64 == y) by (bit_vector);
    } else {
        lemma_le_value_byte(t, i - 1);
        lemma_shift_compose(y, i as u64);
        assert(t[i - 1] == s[i]);
    }
}

/// An inline entry records the length of the value it holds.
pub proof fn lemma_inline_entry_len(s: Seq<u8>)
    requires
        s.len() < INLINE_LIMIT,
    ensures
        0 <= inline_entry(s) <= u64::MAX,
        entry_len(inline_entry(s) as u64) == s.len(),
{
    lemma_le_value_bound(s);
    lemma_byte_span_monotonic(s.len(), 7);
    lemma_byte_span_seven();
    lemma_split_low_byte(inline_entry(s) as u64, s.len() as u64, le_value(s) as u64);
}

/// A value of at most five bytes, stored inline, reads back as itself.
pub proof fn lemma_inline_roundtrip(s: Seq<u8>)
    requires
        s.len() <= 5,
    ensures
        inline_bytes(inline_entry(s) as u64) == s,
{
    lemma_inline_entry_len(s);
    lemma_le_value_bound(s);
    lemma_byte_span_monotonic(s.len(), 7);
    lemma_byte_span_seven();
    let entry = inline_entry(s) as u64;
    lemma_split_low_byte(entry, s.len() as u64, le_value(s) as u64);
    let r = inline_bytes(entry);
    assert forall|i: int| 0 <= i < s.len() implies r[i] == s[i] by {
        lemma_le_value_byte(s, i);
    }
    assert(r =~= s);
}

/// The length that an entry records is the entry modulo `256`.
pub proof fn lemma_entry_len_is_low_byte(entry: u64)
    ensures
        entry_len(entry) == entry % 256,
{
    assert(entry & 0xffu64 == entry % 256) by (bit_vector);
}

/// Where an inline value sits in its entry: the entry modulo `256` is the
/// value's length, and byte `i` of the value is byte `i + 1` of the entry.
pub proof fn lemma_inline_entry_layout(s: Seq<u8>, i: int)
    requires
        s.len() < 8,
        0 <= i < s.len(),
    ensures
        0 <= inline_entry(s) <= u64::MAX,
        (inline_entry(s) as u64) % 256 == s.len(),
        ((inline_entry(s) as u64) >> ((8 * i + 8) as u64)) & 0xffu64 == s[i] as u64,
{
    lemma_inline_entry_len(s);
    lemma_le_value_bound(s);
    lemma_byte_span_monotonic(s.len(), 7);
    lemma_byte_span_seven();
    let entry = inline_entry(s) as u64;
    lemma_split_low_byte(entry, s.len() as u64, le_value(s) as u64);
    lemma_entry_len_is_low_byte(entry);
    lemma_le_value_byte(s, i);
    lemma_shift_compose(entry, (i + 1) as u64);
}

/// What reading an inline entry gives: as many bytes as the entry modulo
/// `256`; the first five are bytes `1` to `5` of the entry, the sixth is its
/// top byte, and the seventh is always zero.
pub proof fn lemma_inline_bytes_layout(entry: u64, i: int)
    requires
        0 <= i < 7,
        i < entry % 256,
    ensures
        inline_bytes(entry).len() == entry % 256,
        i < 5 ==> inline_bytes(entry)[i] as u64 == (entry >> ((8 * i + 8) as u64)) & 0xffu64,
        i == 5 ==> inline_bytes(entry)[i] as u64 == (entry >> 56u64) & 0xffu64,
        i == 6 ==> inline_bytes(entry)[i] == 0,
{
    lemma_entry_len_is_low_byte(entry);
    let x = (entry >> 8u64) >> read_shift(i);
    assert((((x & 0xffu64) as u8) as u64) == x & 0xffu64) by (bit_vector);
    if i < 5 {
        lemma_shift_compose(entry, (i + 1) as u64);
    } else if i == 5 {
        assert((entry >> 8u64) >> 48u64 == entry >> 56u64) by (bit_vector);
    } else {
        assert(((entry >> 8u64) >> 56u64) & 0xffu64 == 0) by (bit_vector);
    }
}

/// Packs a value of fewer than eight bytes into one `u64` entry.
pub fn pack_inline(value: &[u8]) -> (entry: u64)
    requires
        value@.len() < INLINE_LIMIT,
    ensures
        entry == inline_entry(value@),
{
    let n = value.len();
    let mut acc: u64 = 0;
    let mut i: usize = n;
    proof {
        lemma_byte_span_seven();
    }
    while i > 0
        invariant
            n == value@.len(),
            n < INLINE_LIMIT,
            i <= n,
            acc == le_value(value@.subrange(i as int, n as int)),
            acc < byte_span((n - i) as nat),
            byte_span(7) == 0x100_0000_0000_0000,
        decreases i,
    {
        let b = value[i - 1];
        proof {
            lemma_byte_span_monotonic((n - i) as nat, 7);
            lemma_shift_or(acc, b as u64);
            let s = value@.subrange(i - 1, n as int);
            assert(s.drop_first() =~= value@.subrange(i as int, n as int));
        }
        acc = (acc << 8u64) | (b as u64);
        i = i - 1;
    }
    proof {
        assert(value@.subrange(0, n as int) =~= value@);
        lemma_le_value_bound(value@);
        lemma_byte_span_monotonic(n as nat, 7);
        lemma_shift_or(acc, n as u64);
    }
    (acc << 8u64) | (n as u64)
}

/// Reads an inline entry back as bytes: as many as its lowest byte records,
/// taken from the byte positions that `read_shift` gives.
pub fn unpack_inline(entry: u64) -> (value: Vec<u8>)
    requires
        entry_len(entry) < INLINE_LIMIT,
    ensures
        value@ == inline_bytes(entry),
{
    let len = (entry & 0xff) as usize;
    let w = entry >> 8u64;
    let array: [u8; 7] = [
        (w & 0xff) as u8,
        ((w >> 8u64) & 0xff) as u8,
        ((w >> 16u64) & 0xff) as u8,
        ((w >> 24u64) & 0xff) as u8,
        ((w >> 32u64) & 0xff) as u8,
        ((w >> 48u64) & 0xff) as u8,
        ((w >> 56u64) & 0xff) as u8,
    ];
    proof {
        assert(w >> 0u64 == w) by (bit_vector);
        assert(entry & 0xffu64 <= 0xffu64) by (bit_vector);
    }
    let ghost target = inline_bytes(entry);
    let mut value: Vec<u8> = Vec::new();
    let mut i: usize = 0;
    while i < len
        invariant
            len == entry_len(entry),
            len < 7 + 1,
            i <= len,
            target == inline_bytes(entry),
            w == entry >> 8u64,
            forall|k: int| 0 <= k < 7 ==> array@[k] == #[trigger] ((w >> read_shift(k)) & 0xffu64) as u8,
            value@ =~= target.subrange(0, i as int),
        decreases len - i,
    {
        value.push(array[i]);
        i = i + 1;
    }
    value
}

} // verus!
