use vstd::prelude::*;

verus! {

/// Append `data` to `out`, byte by byte.
pub fn append(out: &mut Vec<u8>, data: &[u8])
    ensures
        final(out)@ == old(out)@ + data@,
{
    let mut i: usize = 0;
    while i < data.len()
        invariant
            i <= data.len(),
            out@ == old(out)@ + data@.take(i as int),
        decreases data.len() - i,
    {
        out.push(data[i]);
        i += 1;
        assert(data@.take(i as int) == data@.take(i - 1).push(data@[i - 1]));
    }
    assert(data@.take(i as int) == data@);
}

/// A vector holding the bytes of `data`.
pub fn copy(data: &[u8]) -> (out: Vec<u8>)
    ensures
        out@ == data@,
{
    let mut out: Vec<u8> = Vec::new();
    append(&mut out, data);
    assert(Seq::<u8>::empty() + data@ == data@);
    out
}

/// Whether `a` and `b` hold the same bytes.
pub fn equal(a: &[u8], b: &[u8]) -> (same: bool)
    ensures
        same == (a@ == b@),
{
    if a.len() != b.len() {
        return false;
    }
    let mut i: usize = 0;
    while i < a.len()
        invariant
            i <= a.len(),
            a.len() == b.len(),
            a@.take(i as int) == b@.take(i as int),
        decreases a.len() - i,
    {
        if a[i] != b[i] {
            return false;
        }
        i += 1;
        assert(a@.take(i as int) == a@.take(i - 1).push(a@[i - 1]));
        assert(b@.take(i as int) == b@.take(i - 1).push(b@[i - 1]));
    }
    assert(a@.take(i as int) == a@);
    assert(b@.take(i as int) == b@);
    true
}

/// The number of bits that it takes to write `b`: 0 for 0, 8 for 128 and more.
pub open spec fn bit_width(b: u8) -> nat {
    if b >= 128 {
        8
    } else if b >= 64 {
        7
    } else if b >= 32 {
        6
    } else if b >= 16 {
        5
    } else if b >= 8 {
        4
    } else if b >= 4 {
        3
    } else if b >= 2 {
        2
    } else if b >= 1 {
        1
    } else {
        0
    }
}

/// The number of bits of the number that `n` holds, most significant byte
/// first: leading zero bytes count for nothing.
pub open spec fn bit_length(n: Seq<u8>) -> nat
    decreases n.len(),
{
    if n.len() == 0 {
        0
    } else if n[0] == 0 {
        bit_length(n.drop_first())
    } else {
        (8 * (n.len() - 1) + bit_width(n[0])) as nat
    }
}

fn width(b: u8) -> (w: u32)
    ensures
        w == bit_width(b),
{
    if b >= 128 {
        8
    } else if b >= 64 {
        7
    } else if b >= 32 {
        6
    } else if b >= 16 {
        5
    } else if b >= 8 {
        4
    } else if b >= 4 {
        3
    } else if b >= 2 {
        2
    } else if b >= 1 {
        1
    } else {
        0
    }
}

/// Whether the number that `n` holds has exactly `bits` bits.
pub fn has_bit_length(n: &[u8], bits: u32) -> (ok: bool)
    ensures
        ok == (bit_length(n@) == bits),
{
    let mut i: usize = 0;
    assert(n@.skip(0) == n@);
    while i < n.len() && n[i] == 0
        invariant
            i <= n.len(),
            bit_length(n@) == bit_length(n@.skip(i as int)),
        decreases n.len() - i,
    {
        assert(n@.skip(i as int).drop_first() == n@.skip(i + 1));
        i += 1;
    }
    let ghost rest = n@.skip(i as int);
    if i == n.len() {
        return bits == 0;
    }
    let w = width(n[i]);
    let more: usize = n.len() - i - 1;
    assert(bit_length(rest) == 8 * more + w);
    if bits < w {
        return false;
    }
    let above: u32 = bits - w;
    above % 8 == 0 && (above / 8) as usize == more
}

} // verus!
