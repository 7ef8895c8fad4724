//! Connection discovery's compute half: parsing the colon-delimited lockfile
//! record (`name:pid:port:password:protocol`) that the local service writes.
//! Reading the file from disk happens outside the library; the bytes come in,
//! and the port, password and protocol fields come out.

use vstd::prelude::*;

verus! {

/// The field separator of the lockfile record.
pub const COLON: u8 = 58;

/// The port, password and protocol fields read out of a lockfile record.
#[derive(Debug, Clone)]
pub struct LockfileFields {
    pub port: u16,
    pub password: Vec<u8>,
    pub protocol: Vec<u8>,
}

/// Index of the first separator in `s`; `s.len()` when there is none.
pub open spec fn spec_colon_pos(s: Seq<u8>) -> nat
    decreases s.len(),
{
    if s.len() == 0 {
        0
    } else if s[0] == COLON {
        0
    } else {
        1 + spec_colon_pos(s.drop_first())
    }
}

/// The colon-separated fields of `s`, in order. A record without separators
/// is one field; every separator ends a field.
pub open spec fn spec_split(s: Seq<u8>) -> Seq<Seq<u8>>
    decreases s.len(),
{
    let p = spec_colon_pos(s);
    if p >= s.len() {
        seq![s]
    } else {
        seq![s.take(p as int)] + spec_split(s.skip(p as int + 1))
    }
}

proof fn lemma_colon_pos_colon_free(s: Seq<u8>)
    requires
        !s.contains(COLON),
    ensures
        spec_colon_pos(s) == s.len(),
    decreases s.len(),
{
    if s.len() == 0 {
    } else {
        assert(s[0] != COLON);
        assert forall|i: int| 0 <= i < s.drop_first().len() implies s.drop_first()[i] != COLON by {
            assert(s.drop_first()[i] == s[i + 1]);
        }
        assert(!s.drop_first().contains(COLON));
        lemma_colon_pos_colon_free(s.drop_first());
    }
}

proof fn lemma_colon_pos_prefix(c: Seq<u8>, t: Seq<u8>)
    requires
        !c.contains(COLON),
    ensures
        spec_colon_pos(c + seq![COLON] + t) == c.len(),
    decreases c.len(),
{
    let s = c + seq![COLON] + t;
    if c.len() == 0 {
        assert(s[0] == COLON);
    } else {
        assert(s[0] == c[0]);
        assert(c[0] != COLON);
        assert forall|i: int| 0 <= i < c.drop_first().len() implies c.drop_first()[i] != COLON by {
            assert(c.drop_first()[i] == c[i + 1]);
        }
        assert(!c.drop_first().contains(COLON));
        lemma_colon_pos_prefix(c.drop_first(), t);
        assert(s.drop_first() =~= c.drop_first() + seq![COLON] + t);
    }
}

/// Splitting a record that starts with one separator-free field: the field
/// comes off the front, and the rest splits on its own.
proof fn lemma_split_prepend(c: Seq<u8>, t: Seq<u8>)
    requires
        !c.contains(COLON),
    ensures
        spec_split(c + seq![COLON] + t) == seq![c] + spec_split(t),
{
    let s = c + seq![COLON] + t;
    lemma_colon_pos_prefix(c, t);
    assert(spec_colon_pos(s) == c.len() < s.len());
    assert(s.take(c.len() as int) =~= c);
    assert(s.skip(c.len() as int + 1) =~= t);
}

/// Splitting a separator-free record: one field, the record itself.
proof fn lemma_split_whole(c: Seq<u8>)
    requires
        !c.contains(COLON),
    ensures
        spec_split(c) == seq![c],
{
    lemma_colon_pos_colon_free(c);
}

/// Split a record into its colon-separated fields.
pub fn split_fields(bytes: &[u8]) -> (parts: Vec<Vec<u8>>)
    ensures
        parts@.map_values(|p: Vec<u8>| p@) == spec_split(bytes@),
        parts@.len() >= 1,
{
    let mut parts: Vec<Vec<u8>> = Vec::new();
    let mut cur: Vec<u8> = Vec::new();
    let n = bytes.len();
    let mut i: usize = 0;
    proof {
        assert(cur@ + bytes@.skip(0) =~= bytes@);
    }
    while i < n
        invariant
            i <= n,
            n == bytes@.len(),
            !cur@.contains(COLON),
            spec_split(bytes@) == parts@.map_values(|p: Vec<u8>| p@) + spec_split(
                cur@ + bytes@.skip(i as int),
            ),
        decreases n - i,
    {
        let b = bytes[i];
        proof {
            assert(bytes@.skip(i as int)[0] == bytes@[i as int]);
        }
        if b == COLON {
            proof {
                assert(cur@ + bytes@.skip(i as int) =~= cur@ + seq![COLON] + bytes@.skip(
                    i as int + 1,
                ));
                lemma_split_prepend(cur@, bytes@.skip(i as int + 1));
            }
            let ghost old_parts = parts@;
            parts.push(cur);
            proof {
                assert(parts@.map_values(|p: Vec<u8>| p@) =~= old_parts.map_values(
                    |p: Vec<u8>| p@,
                ).push(cur@));
                assert(old_parts.map_values(|p: Vec<u8>| p@).push(cur@) + spec_split(
                    bytes@.skip(i as int + 1),
                ) =~= old_parts.map_values(|p: Vec<u8>| p@) + (seq![cur@] + spec_split(
                    bytes@.skip(i as int + 1),
                )));
            }
            cur = Vec::new();
        } else {
            proof {
                assert(cur@ + bytes@.skip(i as int) =~= cur@.push(b) + bytes@.skip(i as int + 1));
                assert forall|k: int| 0 <= k < cur@.push(b).len() implies cur@.push(b)[k]
                    != COLON by {
                    if k < cur@.len() {
                        assert(cur@.push(b)[k] == cur@[k]);
                    }
                }
                assert(!cur@.push(b).contains(COLON));
            }
            cur.push(b);
        }
        i = i + 1;
    }
    proof {
        assert(bytes@.skip(n as int) =~= Seq::<u8>::empty());
        assert(cur@ + bytes@.skip(n as int) =~= cur@);
        lemma_split_whole(cur@);
    }
    let ghost old_parts = parts@;
    parts.push(cur);
    proof {
        assert(parts@.map_values(|p: Vec<u8>| p@) =~= old_parts.map_values(|p: Vec<u8>| p@).push(
            cur@,
        ));
        assert(old_parts.map_values(|p: Vec<u8>| p@).push(cur@) =~= old_parts.map_values(
            |p: Vec<u8>| p@,
        ) + seq![cur@]);
    }
    parts
}

/// An ASCII decimal digit.
pub open spec fn spec_is_digit(b: u8) -> bool {
    48 <= b <= 57
}

/// Every byte of `s` is a decimal digit.
pub open spec fn spec_all_digits(s: Seq<u8>) -> bool {
    forall|i: int| 0 <= i < s.len() ==> spec_is_digit(#[trigger] s[i])
}

/// The number the digit string `s` denotes, most significant digit first.
pub open spec fn spec_dec_value(s: Seq<u8>) -> int
    decreases s.len(),
{
    if s.len() == 0 {
        0
    } else {
        spec_dec_value(s.drop_last()) * 10 + (s.last() - 48)
    }
}

proof fn lemma_dec_value_nonneg(s: Seq<u8>)
    requires
        spec_all_digits(s),
    ensures
        spec_dec_value(s) >= 0,
    decreases s.len(),
{
    if s.len() > 0 {
        assert(spec_all_digits(s.drop_last()));
        lemma_dec_value_nonneg(s.drop_last());
    }
}

proof fn lemma_dec_value_prefix(s: Seq<u8>, k: int)
    requires
        spec_all_digits(s),
        0 <= k <= s.len(),
    ensures
        spec_dec_value(s) >= spec_dec_value(s.take(k)),
    decreases s.len() - k,
{
    if k < s.len() {
        assert(spec_all_digits(s.take(k)));
        lemma_dec_value_nonneg(s.take(k));
        assert(s.take(k + 1).drop_last() =~= s.take(k));
        assert(s.take(k + 1).last() == s[k]);
        lemma_dec_value_prefix(s, k + 1);
    } else {
        assert(s.take(k) =~= s);
    }
}

/// Parse a lockfile port field: a non-empty, all-digit string whose value
/// fits in a port number. Returns `None` on anything else.
pub fn parse_port(digits: &Vec<u8>) -> (r: Option<u16>)
    ensures
        match r {
            Some(p) => digits@.len() > 0 && spec_all_digits(digits@) && p as int == spec_dec_value(
                digits@,
            ),
            None => digits@.len() == 0 || !spec_all_digits(digits@) || spec_dec_value(digits@)
                > u16::MAX,
        },
{
    let n = digits.len();
    if n == 0 {
        return None;
    }
    let mut val: u32 = 0;
    let mut i: usize = 0;
    while i < n
        invariant
            i <= n,
            n == digits@.len(),
            spec_all_digits(digits@.take(i as int)),
            val == spec_dec_value(digits@.take(i as int)),
            val <= 65535,
        decreases n - i,
    {
        let b = digits[i];
        if b < 48 || b > 57 {
            return None;
        }
        let d = (b - 48) as u32;
        let nv = val * 10 + d;
        proof {
            assert(digits@.take(i as int + 1).drop_last() =~= digits@.take(i as int));
            assert(digits@.take(i as int + 1).last() == digits@[i as int]);
            assert(spec_all_digits(digits@.take(i as int + 1)));
        }
        if nv > 65535 {
            proof {
                if spec_all_digits(digits@) {
                    lemma_dec_value_prefix(digits@, i as int + 1);
                }
            }
            return None;
        }
        val = nv;
        i = i + 1;
    }
    proof {
        assert(digits@.take(n as int) =~= digits@);
    }
    Some(val as u16)
}

/// A whitespace byte: space, tab, line feed or carriage return.
pub open spec fn spec_is_ws(b: u8) -> bool {
    b == 32 || b == 9 || b == 10 || b == 13
}

/// `s` with leading whitespace removed.
pub open spec fn spec_trim_front(s: Seq<u8>) -> Seq<u8>
    decreases s.len(),
{
    if s.len() > 0 && spec_is_ws(s[0]) {
        spec_trim_front(s.drop_first())
    } else {
        s
    }
}

/// `s` with trailing whitespace removed.
pub open spec fn spec_trim_back(s: Seq<u8>) -> Seq<u8>
    decreases s.len(),
{
    if s.len() > 0 && spec_is_ws(s.last()) {
        spec_trim_back(s.drop_last())
    } else {
        s
    }
}

/// `s` with surrounding whitespace removed.
pub open spec fn spec_trim(s: Seq<u8>) -> Seq<u8> {
    spec_trim_back(spec_trim_front(s))
}

fn is_ws(b: u8) -> (r: bool)
    ensures
        r == spec_is_ws(b),
{
    b == 32 || b == 9 || b == 10 || b == 13
}

/// Strip surrounding whitespace from a field.
pub fn trim_bytes(v: &Vec<u8>) -> (r: Vec<u8>)
    ensures
        r@ == spec_trim(v@),
{
    let n = v.len();
    let mut lo: usize = 0;
    proof {
        assert(v@.skip(0) =~= v@);
    }
    while lo < n && is_ws(v[lo])
        invariant
            lo <= n,
            n == v@.len(),
            spec_trim_front(v@) == spec_trim_front(v@.skip(lo as int)),
        decreases n - lo,
    {
        proof {
            assert(v@.skip(lo as int)[0] == v@[lo as int]);
            assert(v@.skip(lo as int).drop_first() =~= v@.skip(lo as int + 1));
        }
        lo = lo + 1;
    }
    proof {
        if lo < n {
            assert(v@.skip(lo as int)[0] == v@[lo as int]);
        }
        assert(spec_trim_front(v@) == v@.skip(lo as int));
    }
    let mut hi: usize = n;
    while hi > lo && is_ws(v[hi - 1])
        invariant
            lo <= hi <= n,
            n == v@.len(),
            spec_trim_back(v@.skip(lo as int)) == spec_trim_back(
                v@.subrange(lo as int, hi as int),
            ),
        decreases hi,
    {
        proof {
            let sub = v@.subrange(lo as int, hi as int);
            assert(sub.last() == v@[hi as int - 1]);
            assert(sub.drop_last() =~= v@.subrange(lo as int, hi as int - 1));
        }
        hi = hi - 1;
    }
    proof {
        let sub = v@.subrange(lo as int, hi as int);
        if hi > lo {
            assert(sub.last() == v@[hi as int - 1]);
        }
        assert(spec_trim_back(sub) == sub);
        assert(v@.skip(lo as int) =~= v@.subrange(lo as int, n as int));
    }
    let mut out: Vec<u8> = Vec::new();
    let mut i: usize = lo;
    while i < hi
        invariant
            lo <= i <= hi <= n,
            n == v@.len(),
            out@ == v@.subrange(lo as int, i as int),
        decreases hi - i,
    {
        out.push(v[i]);
        proof {
            assert(v@.subrange(lo as int, i as int + 1) =~= v@.subrange(lo as int, i as int).push(
                v@[i as int],
            ));
        }
        i = i + 1;
    }
    out
}

fn clone_bytes(v: &Vec<u8>) -> (r: Vec<u8>)
    ensures
        r@ == v@,
{
    let n = v.len();
    let mut out: Vec<u8> = Vec::new();
    let mut i: usize = 0;
    while i < n
        invariant
            i <= n,
            n == v@.len(),
            out@ == v@.take(i as int),
        decreases n - i,
    {
        out.push(v[i]);
        proof {
            assert(v@.take(i as int + 1) =~= v@.take(i as int).push(v@[i as int]));
        }
        i = i + 1;
    }
    proof {
        assert(v@.take(n as int) =~= v@);
    }
    out
}

/// Whether a field is a usable port: non-empty, all digits, and in range.
pub open spec fn spec_valid_port_field(f: Seq<u8>) -> bool {
    f.len() > 0 && spec_all_digits(f) && spec_dec_value(f) <= u16::MAX
}

/// Parse one lockfile record. The record must have at least five
/// colon-separated fields (`name:pid:port:password:protocol`) and a numeric
/// port; the password is taken as-is and the protocol is trimmed of
/// surrounding whitespace (the record often ends in a newline).
pub fn parse_lockfile(bytes: &[u8]) -> (r: Option<LockfileFields>)
    ensures
        ({
            let fields = spec_split(bytes@);
            match r {
                Some(f) => {
                    &&& fields.len() >= 5
                    &&& spec_valid_port_field(fields[2])
                    &&& f.port as int == spec_dec_value(fields[2])
                    &&& f.password@ == fields[3]
                    &&& f.protocol@ == spec_trim(fields[4])
                },
                None => fields.len() < 5 || !spec_valid_port_field(fields[2]),
            }
        }),
{
    let parts = split_fields(bytes);
    proof {
        assert(parts@.map_values(|p: Vec<u8>| p@).len() == parts@.len());
    }
    if parts.len() < 5 {
        return None;
    }
    proof {
        assert(parts@.map_values(|p: Vec<u8>| p@)[2] == parts@[2]@);
        assert(parts@.map_values(|p: Vec<u8>| p@)[3] == parts@[3]@);
        assert(parts@.map_values(|p: Vec<u8>| p@)[4] == parts@[4]@);
    }
    match parse_port(&parts[2]) {
        None => None,
        Some(port) => {
            let password = clone_bytes(&parts[3]);
            let protocol = trim_bytes(&parts[4]);
            Some(LockfileFields { port, password, protocol })
        },
    }
}

} // verus!
