//! Textual bind addresses.
//!
//! A bind address is the text `a.b.c.d:port`: four decimal octets (at most
//! three digits, no leading zero except `0` itself, value at most 255),
//! separated by dots, then a colon and a decimal port (leading zeros allowed,
//! value at most 65535). `valid_addr_text` states that grammar over the raw
//! bytes; `parse_bind_addr` is proved to accept exactly the valid texts.

use vstd::prelude::*;
use vstd::string::StringSliceAdditionalSpecFns;

verus! {

/// The four octets of an IPv4 address, as plain bytes.
#[derive(Clone, Copy, Debug, PartialEq, Eq, Structural)]
pub struct IpOctets {
    pub n0: u8,
    pub n1: u8,
    pub n2: u8,
    pub n3: u8,
}

/// A local socket address: IPv4 octets and a port.
#[derive(Clone, Copy, Debug, PartialEq, Eq, Structural)]
pub struct BindAddr {
    pub ip: IpOctets,
    pub port: u16,
}

/// An ASCII decimal digit, `'0'` (48) through `'9'` (57).
pub open spec fn is_digit(b: u8) -> bool {
    48 <= b && b <= 57
}

pub open spec fn all_digits(s: Seq<u8>) -> bool {
    forall|i: int| 0 <= i < s.len() ==> is_digit(#[trigger] s[i])
}

/// The number denoted by a sequence of decimal digits, most significant
/// first.
pub open spec fn dec_val(s: Seq<u8>) -> int
    decreases s.len(),
{
    if s.len() == 0 {
        0
    } else {
        dec_val(s.drop_last()) * 10 + (s.last() - 48)
    }
}

/// The text of one address octet.
pub open spec fn octet_text(s: Seq<u8>) -> bool {
    &&& 1 <= s.len() <= 3
    &&& all_digits(s)
    &&& (s.len() > 1 ==> s[0] != 48)
    &&& dec_val(s) <= 255
}

/// The text of a port.
pub open spec fn port_text(s: Seq<u8>) -> bool {
    &&& s.len() >= 1
    &&& all_digits(s)
    &&& dec_val(s) <= 65535
}

/// `i1`, `i2`, `i3` are the positions of the dots and `i4` of the colon in a
/// well-formed address text.
pub open spec fn addr_split_at(s: Seq<u8>, i1: int, i2: int, i3: int, i4: int) -> bool {
    &&& 0 <= i1 < i2 < i3 < i4 < s.len()
    &&& s[i1] == 46 && s[i2] == 46 && s[i3] == 46 && s[i4] == 58
    &&& octet_text(s.subrange(0, i1))
    &&& octet_text(s.subrange(i1 + 1, i2))
    &&& octet_text(s.subrange(i2 + 1, i3))
    &&& octet_text(s.subrange(i3 + 1, i4))
    &&& port_text(s.subrange(i4 + 1, s.len() as int))
}

/// The bytes spell a well-formed `a.b.c.d:port` text.
pub open spec fn valid_addr_text(s: Seq<u8>) -> bool {
    exists|i1: int, i2: int, i3: int, i4: int| addr_split_at(s, i1, i2, i3, i4)
}

/// The address denoted by a well-formed text, split at the given positions.
pub open spec fn addr_of_split(s: Seq<u8>, i1: int, i2: int, i3: int, i4: int) -> BindAddr {
    BindAddr {
        ip: IpOctets {
            n0: dec_val(s.subrange(0, i1)) as u8,
            n1: dec_val(s.subrange(i1 + 1, i2)) as u8,
            n2: dec_val(s.subrange(i2 + 1, i3)) as u8,
            n3: dec_val(s.subrange(i3 + 1, i4)) as u8,
        },
        port: dec_val(s.subrange(i4 + 1, s.len() as int)) as u16,
    }
}

proof fn lemma_dec_val_nonneg(s: Seq<u8>)
    requires
        all_digits(s),
    ensures
        dec_val(s) >= 0,
    decreases s.len(),
{
    if s.len() > 0 {
        assert(all_digits(s.drop_last())) by {
            assert(forall|i: int|
                0 <= i < s.len() - 1 ==> #[trigger] s.drop_last()[i] == s[i]);
        }
        lemma_dec_val_nonneg(s.drop_last());
    }
}

proof fn lemma_all_digits_subrange(s: Seq<u8>, a: int, b: int)
    requires
        all_digits(s),
        0 <= a <= b <= s.len(),
    ensures
        all_digits(s.subrange(a, b)),
{
    assert(forall|i: int| 0 <= i < b - a ==> #[trigger] s.subrange(a, b)[i] == s[a + i]);
}

/// At most three digits denote at most 999.
proof fn lemma_dec_val_small(s: Seq<u8>)
    requires
        all_digits(s),
        s.len() <= 3,
    ensures
        s.len() == 0 ==> dec_val(s) == 0,
        s.len() <= 1 ==> dec_val(s) <= 9,
        s.len() <= 2 ==> dec_val(s) <= 99,
        dec_val(s) <= 999,
    decreases s.len(),
{
    if s.len() > 0 {
        assert(s.drop_last() =~= s.subrange(0, s.len() - 1));
        lemma_all_digits_subrange(s, 0, s.len() - 1);
        lemma_dec_val_small(s.drop_last());
    }
}

/// Appending one digit multiplies the value by ten and adds the digit.
proof fn lemma_dec_val_step(s: Seq<u8>, k: int)
    requires
        0 <= k < s.len(),
    ensures
        dec_val(s.subrange(0, k + 1)) == dec_val(s.subrange(0, k)) * 10 + (s[k] - 48),
{
    let t = s.subrange(0, k + 1);
    assert(t.drop_last() =~= s.subrange(0, k));
    assert(t.last() == s[k]);
}

/// A prefix of a digit string never denotes more than the whole string.
proof fn lemma_dec_val_prefix_le(s: Seq<u8>, k: int)
    requires
        all_digits(s),
        0 <= k <= s.len(),
    ensures
        dec_val(s.subrange(0, k)) <= dec_val(s),
    decreases s.len() - k,
{
    if k == s.len() {
        assert(s.subrange(0, k) =~= s);
    } else {
        lemma_dec_val_step(s, k);
        assert(all_digits(s.subrange(0, k))) by {
            assert(forall|i: int|
                0 <= i < k ==> #[trigger] s.subrange(0, k)[i] == s[i]);
        }
        lemma_dec_val_nonneg(s.subrange(0, k));
        assert(is_digit(s[k]));
        lemma_dec_val_prefix_le(s, k + 1);
    }
}

/// In a run of digits from `from`, a non-digit at `j` preceded only by digits
/// stands exactly where the scan from `from` stopped (`p`).
proof fn lemma_first_sep(s: Seq<u8>, from: int, j: int, p: int)
    requires
        0 <= from <= p <= s.len(),
        from <= j < s.len(),
        all_digits(s.subrange(from, j)),
        !is_digit(s[j]),
        all_digits(s.subrange(from, p)),
        p < s.len() ==> !is_digit(s[p]),
    ensures
        j == p,
{
    if p < j {
        assert(s.subrange(from, j)[p - from] == s[p]);
        assert(false);
    }
    if j < p {
        assert(s.subrange(from, p)[j - from] == s[j]);
        assert(false);
    }
}

/// First index at or after `from` holding a non-digit, or the length if all
/// remaining bytes are digits.
fn scan_digits(bytes: &[u8], from: usize) -> (r: usize)
    requires
        from <= bytes@.len(),
    ensures
        from <= r <= bytes@.len(),
        all_digits(bytes@.subrange(from as int, r as int)),
        r < bytes@.len() ==> !is_digit(bytes@[r as int]),
{
    let mut i = from;
    while i < bytes.len()
        invariant
            from <= i <= bytes@.len(),
            all_digits(bytes@.subrange(from as int, i as int)),
        decreases bytes@.len() - i,
    {
        let b = bytes[i];
        if !(48 <= b && b <= 57) {
            return i;
        }
        assert(bytes@.subrange(from as int, i + 1 as int) =~= bytes@.subrange(
            from as int,
            i as int,
        ).push(bytes@[i as int]));
        i = i + 1;
    }
    i
}

/// The value of one octet's text, or `None` where the text between the
/// separators is not a well-formed octet.
fn parse_octet(bytes: &[u8], from: usize, to: usize) -> (r: Option<u8>)
    requires
        from <= to <= bytes@.len(),
        all_digits(bytes@.subrange(from as int, to as int)),
    ensures
        octet_text(bytes@.subrange(from as int, to as int)) ==> r == Some(
            dec_val(bytes@.subrange(from as int, to as int)) as u8,
        ),
        !octet_text(bytes@.subrange(from as int, to as int)) ==> r is None,
{
    let ghost seg = bytes@.subrange(from as int, to as int);
    let n = to - from;
    if n < 1 || n > 3 {
        return None;
    }
    if n > 1 && bytes[from] == 48 {
        return None;
    }
    let mut acc: u32 = 0;
    let mut j = from;
    while j < to
        invariant
            from <= j <= to <= bytes@.len(),
            to - from <= 3,
            seg == bytes@.subrange(from as int, to as int),
            all_digits(seg),
            acc == dec_val(seg.subrange(0, j - from)),
            acc <= 999,
        decreases to - j,
    {
        let b = bytes[j];
        assert(seg[j - from] == bytes@[j as int]);
        assert(is_digit(b));
        proof {
            lemma_dec_val_step(seg, j - from);
            lemma_all_digits_subrange(seg, 0, j - from + 1);
            lemma_dec_val_small(seg.subrange(0, j - from + 1));
        }
        acc = acc * 10 + (b - 48) as u32;
        j = j + 1;
    }
    assert(seg.subrange(0, to - from) =~= seg);
    if acc > 255 {
        return None;
    }
    Some(acc as u8)
}

/// The value of the port text, or `None` where it is empty or above 65535.
fn parse_port(bytes: &[u8], from: usize, to: usize) -> (r: Option<u16>)
    requires
        from <= to <= bytes@.len(),
        all_digits(bytes@.subrange(from as int, to as int)),
    ensures
        port_text(bytes@.subrange(from as int, to as int)) ==> r == Some(
            dec_val(bytes@.subrange(from as int, to as int)) as u16,
        ),
        !port_text(bytes@.subrange(from as int, to as int)) ==> r is None,
{
    let ghost seg = bytes@.subrange(from as int, to as int);
    if to == from {
        return None;
    }
    let mut acc: u32 = 0;
    let mut j = from;
    while j < to
        invariant
            from <= j <= to <= bytes@.len(),
            seg == bytes@.subrange(from as int, to as int),
            all_digits(seg),
            acc == dec_val(seg.subrange(0, j - from)),
            acc <= 65535,
        decreases to - j,
    {
        let b = bytes[j];
        assert(seg[j - from] == bytes@[j as int]);
        assert(is_digit(b));
        proof {
            lemma_dec_val_step(seg, j - from);
        }
        let next: u32 = acc * 10 + (b - 48) as u32;
        if next > 65535 {
            proof {
                lemma_dec_val_prefix_le(seg, j - from + 1);
            }
            return None;
        }
        acc = next;
        j = j + 1;
    }
    assert(seg.subrange(0, to - from) =~= seg);
    Some(acc as u16)
}

/// Parses a textual `a.b.c.d:port` bind address.
///
/// Returns the address exactly when the text is well formed, and `None` on
/// every malformed text. A well-formed text splits at its separators in only
/// one way, so the result is pinned for every valid split.
pub fn parse_bind_addr(s: &str) -> (r: Option<BindAddr>)
    ensures
        r is Some <==> valid_addr_text(s.spec_bytes()),
        forall|i1: int, i2: int, i3: int, i4: int|
            addr_split_at(s.spec_bytes(), i1, i2, i3, i4) ==> r == Some(
                addr_of_split(s.spec_bytes(), i1, i2, i3, i4),
            ),
{
    let bytes = s.as_bytes();
    let ghost t = bytes@;
    let p1 = scan_digits(bytes, 0);
    if p1 == bytes.len() || bytes[p1] != 46 {
        proof {
            if valid_addr_text(t) {
                let (i1, i2, i3, i4) = choose|i1: int, i2: int, i3: int, i4: int|
                    addr_split_at(t, i1, i2, i3, i4);
                lemma_first_sep(t, 0, i1, p1 as int);
            }
        }
        return None;
    }
    let p2 = scan_digits(bytes, p1 + 1);
    if p2 == bytes.len() || bytes[p2] != 46 {
        proof {
            if valid_addr_text(t) {
                let (i1, i2, i3, i4) = choose|i1: int, i2: int, i3: int, i4: int|
                    addr_split_at(t, i1, i2, i3, i4);
                lemma_first_sep(t, 0, i1, p1 as int);
                lemma_first_sep(t, i1 + 1, i2, p2 as int);
            }
        }
        return None;
    }
    let p3 = scan_digits(bytes, p2 + 1);
    if p3 == bytes.len() || bytes[p3] != 46 {
        proof {
            if valid_addr_text(t) {
                let (i1, i2, i3, i4) = choose|i1: int, i2: int, i3: int, i4: int|
                    addr_split_at(t, i1, i2, i3, i4);
                lemma_first_sep(t, 0, i1, p1 as int);
                lemma_first_sep(t, i1 + 1, i2, p2 as int);
                lemma_first_sep(t, i2 + 1, i3, p3 as int);
            }
        }
        return None;
    }
    let p4 = scan_digits(bytes, p3 + 1);
    if p4 == bytes.len() || bytes[p4] != 58 {
        proof {
            if valid_addr_text(t) {
                let (i1, i2, i3, i4) = choose|i1: int, i2: int, i3: int, i4: int|
                    addr_split_at(t, i1, i2, i3, i4);
                lemma_first_sep(t, 0, i1, p1 as int);
                lemma_first_sep(t, i1 + 1, i2, p2 as int);
                lemma_first_sep(t, i2 + 1, i3, p3 as int);
                lemma_first_sep(t, i3 + 1, i4, p4 as int);
            }
        }
        return None;
    }
    let p5 = scan_digits(bytes, p4 + 1);
    if p5 != bytes.len() {
        proof {
            if valid_addr_text(t) {
                let (i1, i2, i3, i4) = choose|i1: int, i2: int, i3: int, i4: int|
                    addr_split_at(t, i1, i2, i3, i4);
                lemma_first_sep(t, 0, i1, p1 as int);
                lemma_first_sep(t, i1 + 1, i2, p2 as int);
                lemma_first_sep(t, i2 + 1, i3, p3 as int);
                lemma_first_sep(t, i3 + 1, i4, p4 as int);
                // everything after the colon must be a digit
                assert(t.subrange(i4 + 1, t.len() as int)[p5 - (i4 + 1)] == t[p5 as int]);
            }
        }
        return None;
    }
    let o0 = parse_octet(bytes, 0, p1);
    let o1 = parse_octet(bytes, p1 + 1, p2);
    let o2 = parse_octet(bytes, p2 + 1, p3);
    let o3 = parse_octet(bytes, p3 + 1, p4);
    let pt = parse_port(bytes, p4 + 1, bytes.len());
    match (o0, o1, o2, o3, pt) {
        (Some(n0), Some(n1), Some(n2), Some(n3), Some(port)) => {
            let b = BindAddr { ip: IpOctets { n0, n1, n2, n3 }, port };
            proof {
                assert(addr_split_at(t, p1 as int, p2 as int, p3 as int, p4 as int));
                assert(b == addr_of_split(t, p1 as int, p2 as int, p3 as int, p4 as int));
                assert forall|i1: int, i2: int, i3: int, i4: int|
                    addr_split_at(t, i1, i2, i3, i4) implies Some(b) == Some(
                    addr_of_split(t, i1, i2, i3, i4),
                ) by {
                    lemma_first_sep(t, 0, i1, p1 as int);
                    lemma_first_sep(t, i1 + 1, i2, p2 as int);
                    lemma_first_sep(t, i2 + 1, i3, p3 as int);
                    lemma_first_sep(t, i3 + 1, i4, p4 as int);
                }
            }
            Some(b)
        },
        _ => {
            proof {
                if valid_addr_text(t) {
                    let (i1, i2, i3, i4) = choose|i1: int, i2: int, i3: int, i4: int|
                        addr_split_at(t, i1, i2, i3, i4);
                    lemma_first_sep(t, 0, i1, p1 as int);
                    lemma_first_sep(t, i1 + 1, i2, p2 as int);
                    lemma_first_sep(t, i2 + 1, i3, p3 as int);
                    lemma_first_sep(t, i3 + 1, i4, p4 as int);
                }
            }
            None
        },
    }
}

} // verus!
