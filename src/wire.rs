use vstd::prelude::*;

verus! {

/// Big-endian bytes of a 32-bit integer.
pub open spec fn be32(n: u32) -> Seq<u8> {
    seq![(n >> 24u32) as u8, (n >> 16u32) as u8, (n >> 8u32) as u8, n as u8]
}

/// Big-endian bytes of a 64-bit integer.
pub open spec fn be64(n: u64) -> Seq<u8> {
    be32((n >> 32u64) as u32) + be32(n as u32)
}

/// The 32-bit integer held big-endian in four bytes.
pub open spec fn be32_value(b0: u8, b1: u8, b2: u8, b3: u8) -> u32 {
    ((b0 as u32) << 24u32) | ((b1 as u32) << 16u32) | ((b2 as u32) << 8u32) | (b3 as u32)
}

/// A length-prefixed byte string.
pub open spec fn string_bytes(b: Seq<u8>) -> Seq<u8> {
    be32(b.len() as u32) + b
}

/// Reads a 32-bit integer at `p`, giving it and the position after it.
pub open spec fn parse_u32(s: Seq<u8>, p: int) -> Option<(u32, int)> {
    if 0 <= p && p + 4 <= s.len() {
        Some((be32_value(s[p], s[p + 1], s[p + 2], s[p + 3]), p + 4))
    } else {
        None
    }
}

/// Reads a 64-bit integer at `p`, giving it and the position after it.
pub open spec fn parse_u64(s: Seq<u8>, p: int) -> Option<(u64, int)> {
    match parse_u32(s, p) {
        Some((hi, q)) => match parse_u32(s, q) {
            Some((lo, r)) => Some((((hi as u64) << 32u64) | (lo as u64), r)),
            None => None,
        },
        None => None,
    }
}

/// Reads a length-prefixed byte string at `p`; the prefix may not claim more
/// bytes than remain.
pub open spec fn parse_string(s: Seq<u8>, p: int) -> Option<(Seq<u8>, int)> {
    match parse_u32(s, p) {
        Some((n, q)) => if q + n <= s.len() {
            Some((s.subrange(q, q + n), q + n))
        } else {
            None
        },
        None => None,
    }
}

/// `e` stands in `s` from position `p` on.
pub open spec fn holds_at(s: Seq<u8>, p: int, e: Seq<u8>) -> bool {
    0 <= p && p + e.len() <= s.len() && s.subrange(p, p + e.len()) == e
}

/// Where `a + b` stands, `a` stands, and `b` right after it.
pub proof fn lemma_holds_at_split(s: Seq<u8>, p: int, a: Seq<u8>, b: Seq<u8>)
    requires
        holds_at(s, p, a + b),
    ensures
        holds_at(s, p, a),
        holds_at(s, p + a.len(), b),
{
    let whole = s.subrange(p, p + (a + b).len());
    assert forall|i: int| 0 <= i < a.len() implies s.subrange(p, p + a.len())[i] == a[i] by {
        assert(whole[i] == (a + b)[i]);
    }
    assert forall|i: int| 0 <= i < b.len() implies s.subrange(
        p + a.len(),
        p + a.len() + b.len(),
    )[i] == b[i] by {
        assert(whole[a.len() + i] == (a + b)[a.len() + i]);
    }
    assert(s.subrange(p, p + a.len()) =~= a);
    assert(s.subrange(p + a.len(), p + a.len() + b.len()) =~= b);
}

/// Four big-endian bytes of an integer give the integer back.
pub proof fn lemma_be32_value(n: u32)
    ensures
        be32_value((n >> 24u32) as u8, (n >> 16u32) as u8, (n >> 8u32) as u8, n as u8) == n,
{
    assert(((((n >> 24u32) as u8) as u32) << 24u32) | ((((n >> 16u32) as u8) as u32) << 16u32)
        | ((((n >> 8u32) as u8) as u32) << 8u32) | ((n as u8) as u32) == n) by (bit_vector);
}

/// An encoded 32-bit integer reads back as itself.
pub proof fn lemma_parse_u32(s: Seq<u8>, p: int, n: u32)
    requires
        holds_at(s, p, be32(n)),
    ensures
        parse_u32(s, p) == Some((n, p + 4)),
{
    let e = be32(n);
    assert(s[p] == s.subrange(p, p + 4)[0]);
    assert(s[p + 1] == s.subrange(p, p + 4)[1]);
    assert(s[p + 2] == s.subrange(p, p + 4)[2]);
    assert(s[p + 3] == s.subrange(p, p + 4)[3]);
    lemma_be32_value(n);
}

/// An encoded 64-bit integer reads back as itself.
pub proof fn lemma_parse_u64(s: Seq<u8>, p: int, n: u64)
    requires
        holds_at(s, p, be64(n)),
    ensures
        parse_u64(s, p) == Some((n, p + 8)),
{
    lemma_holds_at_split(s, p, be32((n >> 32u64) as u32), be32(n as u32));
    lemma_parse_u32(s, p, (n >> 32u64) as u32);
    lemma_parse_u32(s, p + 4, n as u32);
    assert(((((n >> 32u64) as u32) as u64) << 32u64) | ((n as u32) as u64) == n) by (bit_vector);
}

/// An encoded byte string reads back as itself.
pub proof fn lemma_parse_string(s: Seq<u8>, p: int, b: Seq<u8>)
    requires
        b.len() <= u32::MAX,
        holds_at(s, p, string_bytes(b)),
    ensures
        parse_string(s, p) == Some((b, p + 4 + b.len())),
{
    lemma_holds_at_split(s, p, be32(b.len() as u32), b);
    lemma_parse_u32(s, p, b.len() as u32);
}

/// Appends the big-endian bytes of `n`.
pub fn put_u32(out: &mut Vec<u8>, n: u32)
    ensures
        final(out)@ == old(out)@ + be32(n),
{
    out.push((n >> 24u32) as u8);
    out.push((n >> 16u32) as u8);
    out.push((n >> 8u32) as u8);
    out.push(n as u8);
    assert(final(out)@ =~= old(out)@ + be32(n));
}

/// Appends the big-endian bytes of `n`.
pub fn put_u64(out: &mut Vec<u8>, n: u64)
    ensures
        final(out)@ == old(out)@ + be64(n),
{
    put_u32(out, (n >> 32u64) as u32);
    put_u32(out, n as u32);
    assert(final(out)@ =~= old(out)@ + be64(n));
}

/// Appends `b` with its length in front.
pub fn put_string(out: &mut Vec<u8>, b: &[u8])
    requires
        b@.len() <= u32::MAX,
    ensures
        final(out)@ == old(out)@ + string_bytes(b@),
{
    put_u32(out, b.len() as u32);
    let ghost mid = out@;
    let mut i: usize = 0;
    while i < b.len()
        invariant
            i <= b@.len(),
            out@ == mid + b@.subrange(0, i as int),
        decreases b@.len() - i,
    {
        out.push(b[i]);
        i = i + 1;
        assert(out@ =~= mid + b@.subrange(0, i as int));
    }
    assert(b@.subrange(0, b@.len() as int) =~= b@);
    assert(final(out)@ =~= old(out)@ + string_bytes(b@));
}

/// Reads a 32-bit integer at `pos`.
pub fn get_u32(buf: &[u8], pos: usize) -> (r: Option<(u32, usize)>)
    ensures
        parse_u32(buf@, pos as int) == match r {
            Some((n, e)) => Some((n, e as int)),
            None => None,
        },
{
    if pos <= buf.len() && buf.len() - pos >= 4 {
        let n = ((buf[pos] as u32) << 24u32) | ((buf[pos + 1] as u32) << 16u32) | ((buf[pos
            + 2] as u32) << 8u32) | (buf[pos + 3] as u32);
        Some((n, pos + 4))
    } else {
        None
    }
}

/// Reads a 64-bit integer at `pos`.
pub fn get_u64(buf: &[u8], pos: usize) -> (r: Option<(u64, usize)>)
    ensures
        parse_u64(buf@, pos as int) == match r {
            Some((n, e)) => Some((n, e as int)),
            None => None,
        },
{
    match get_u32(buf, pos) {
        Some((hi, q)) => match get_u32(buf, q) {
            Some((lo, r)) => Some((((hi as u64) << 32u64) | (lo as u64), r)),
            None => None,
        },
        None => None,
    }
}

/// Reads a length-prefixed byte string at `pos`.
pub fn get_string(buf: &[u8], pos: usize) -> (r: Option<(Vec<u8>, usize)>)
    ensures
        parse_string(buf@, pos as int) == match r {
            Some((v, e)) => Some((v@, e as int)),
            None => None,
        },
{
    match get_u32(buf, pos) {
        Some((n, q)) => {
            if buf.len() - q >= n as usize {
                let end = q + n as usize;
                let mut v: Vec<u8> = Vec::new();
                let mut i: usize = q;
                while i < end
                    invariant
                        q <= i <= end <= buf@.len(),
                        v@ == buf@.subrange(q as int, i as int),
                    decreases end - i,
                {
                    v.push(buf[i]);
                    i = i + 1;
                    assert(v@ =~= buf@.subrange(q as int, i as int));
                }
                Some((v, end))
            } else {
                None
            }
        },
        None => None,
    }
}

} // verus!
