//! The collector's address, written as dotted decimal text.
use vstd::prelude::*;

use crate::text::{digits_value, is_digit};

verus! {

/// The parts of `s` between dots, in order (one empty part for an empty text).
pub open spec fn split_dots(s: Seq<char>) -> Seq<Seq<char>>
    decreases s.len(),
{
    if s.len() == 0 {
        seq![Seq::empty()]
    } else {
        let p = split_dots(s.drop_last());
        if s.last() == '.' {
            p.push(Seq::empty())
        } else {
            p.update(p.len() - 1, p.last().push(s.last()))
        }
    }
}

/// The digits of a part once an optional leading `+` is set aside.
pub open spec fn unsigned_digits(p: Seq<char>) -> Seq<char> {
    if p.len() > 0 && p[0] == '+' {
        p.drop_first()
    } else {
        p
    }
}

/// The byte that a part writes in base 10: an optional `+`, then one or more
/// digits whose value is at most 255.
pub open spec fn octet_value(p: Seq<char>) -> Option<u8> {
    let d = unsigned_digits(p);
    if d.len() > 0 && (forall|i: int| 0 <= i < d.len() ==> is_digit(#[trigger] d[i])) && digits_value(d)
        <= 255 {
        Some(digits_value(d) as u8)
    } else {
        None
    }
}

/// The four bytes of an address text: at most four parts, each a byte; the
/// bytes of missing parts are zero.
pub open spec fn ip_octets(s: Seq<char>) -> Option<Seq<u8>> {
    let parts = split_dots(s);
    if parts.len() <= 4 && forall|i: int| 0 <= i < parts.len() ==> (#[trigger] octet_value(parts[i])) is Some {
        Some(Seq::new(4, |i: int| if i < parts.len() { octet_value(parts[i])->0 } else { 0 }))
    } else {
        None
    }
}

proof fn lemma_split_dots_nonempty(s: Seq<char>)
    ensures
        split_dots(s).len() >= 1,
    decreases s.len(),
{
    if s.len() > 0 {
        lemma_split_dots_nonempty(s.drop_last());
    }
}

/// Reads one part of an address text as a byte.
pub fn parse_octet(p: &Vec<char>) -> (r: Option<u8>)
    ensures
        r == octet_value(p@),
{
    let n = p.len();
    let start: usize = if n > 0 && p[0] == '+' { 1 } else { 0 };
    if start == n {
        return None;
    }
    let ghost d = unsigned_digits(p@);
    assert(d =~= p@.subrange(start as int, n as int));
    let mut value: u32 = 0;
    let mut big = false;
    let mut k: usize = start;
    while k < n
        invariant
            start <= k <= n,
            n == p@.len(),
            d == p@.subrange(start as int, n as int),
            d == unsigned_digits(p@),
            forall|i: int| 0 <= i < k - start ==> is_digit(#[trigger] d[i]),
            big ==> digits_value(d.subrange(0, k - start)) > 255,
            !big ==> value == digits_value(d.subrange(0, k - start)) && value <= 255,
        decreases n - k,
    {
        let c = p[k];
        if !('0' <= c && c <= '9') {
            assert(!is_digit(d[k - start]));
            return None;
        }
        let ghost pre = d.subrange(0, k - start);
        let ghost next = d.subrange(0, k + 1 - start);
        assert(next.drop_last() =~= pre);
        assert(next.last() == c);
        if !big {
            let v = value * 10 + ((c as u32) - 48);
            if v > 255 {
                big = true;
            } else {
                value = v;
            }
        }
        k = k + 1;
    }
    assert(d.subrange(0, n - start) =~= d);
    if big {
        None
    } else {
        Some(value as u8)
    }
}

/// Reads a dotted decimal address such as `192.168.1.20`. Each part is read
/// as a byte in base 10; parts that are missing leave zero bytes. Gives
/// `None` for more than four parts or a part that is not a byte.
pub fn parse_ip(ip: &str) -> (r: Option<[u8; 4]>)
    ensures
        r is Some <==> ip_octets(ip@) is Some,
        r is Some ==> r->0@ == ip_octets(ip@)->0,
{
    let n = ip.unicode_len();
    let mut result = [0u8; 4];
    let mut cur: Vec<char> = Vec::new();
    let mut count: usize = 0;
    let mut bad = false;
    let ghost mut bad_j: int = 0;
    let mut i: usize = 0;
    proof {
        assert(ip@.subrange(0, 0) =~= Seq::<char>::empty());
    }
    while i < n
        invariant
            n == ip@.len(),
            i <= n,
            split_dots(ip@.subrange(0, i as int)).len() == count + 1,
            cur@ == split_dots(ip@.subrange(0, i as int)).last(),
            !bad ==> count <= 4,
            !bad ==> forall|j: int|
                0 <= j < count ==> octet_value(#[trigger] split_dots(ip@.subrange(0, i as int))[j])
                    == Some(result@[j]),
            !bad ==> forall|j: int| count <= j < 4 ==> result@[j] == 0,
            count <= i,
            bad ==> count > 4 || (0 <= bad_j < count && octet_value(
                split_dots(ip@.subrange(0, i as int))[bad_j],
            ) is None),
        decreases n - i,
    {
        let c = ip.get_char(i);
        proof {
            lemma_split_dots_nonempty(ip@.subrange(0, i as int));
        }
        let ghost before = split_dots(ip@.subrange(0, i as int));
        let ghost after_s = ip@.subrange(0, i + 1);
        assert(after_s.drop_last() =~= ip@.subrange(0, i as int));
        assert(after_s.last() == c);
        if c == '.' {
            if !bad {
                if count >= 4 {
                    bad = true;
                } else {
                    match parse_octet(&cur) {
                        Some(v) => {
                            result[count] = v;
                        },
                        None => {
                            bad = true;
                            proof {
                                bad_j = count as int;
                            }
                        },
                    }
                }
            }
            cur = Vec::new();
            count = count + 1;
        } else {
            cur.push(c);
        }
        i = i + 1;
    }
    assert(ip@.subrange(0, n as int) =~= ip@);
    let ghost parts = split_dots(ip@);
    if bad || count >= 4 {
        return None;
    }
    match parse_octet(&cur) {
        Some(v) => {
            result[count] = v;
            assert(result@ =~= ip_octets(ip@)->0);
            Some(result)
        },
        None => {
            assert(octet_value(parts[count as int]) is None);
            None
        },
    }
}

} // verus!
