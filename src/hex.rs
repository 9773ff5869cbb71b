//! Hexadecimal text of byte strings, as the providers send calldata.
use vstd::prelude::*;

verus! {

/// The value of one hexadecimal digit, in either case.
pub open spec fn digit_value(c: u8) -> Option<u8> {
    if 0x30 <= c <= 0x39 {
        Some((c - 0x30) as u8)
    } else if 0x61 <= c <= 0x66 {
        Some((c - 0x61 + 10) as u8)
    } else if 0x41 <= c <= 0x46 {
        Some((c - 0x41 + 10) as u8)
    } else {
        None
    }
}

/// Whether every byte of `s` is a hexadecimal digit.
pub open spec fn all_digits(s: Seq<u8>) -> bool {
    forall|i: int| 0 <= i < s.len() ==> (#[trigger] digit_value(s[i])) is Some
}

/// The bytes that the digit pairs of `s` spell, most significant digit first.
pub open spec fn pairs_value(s: Seq<u8>) -> Seq<u8> {
    Seq::new(
        s.len() / 2,
        |k: int| (digit_value(s[2 * k])->0 * 16 + digit_value(s[2 * k + 1])->0) as u8,
    )
}

/// The digits after an optional `0x` prefix.
pub open spec fn digits_of(s: Seq<u8>) -> Seq<u8> {
    if s.len() >= 2 && s[0] == 0x30 && s[1] == 0x78 {
        s.subrange(2, s.len() as int)
    } else {
        s
    }
}

/// The bytes that the text `s` spells: an optional `0x` and then an even
/// number of hexadecimal digits.
pub open spec fn decoded(s: Seq<u8>) -> Option<Seq<u8>> {
    let d = digits_of(s);
    if d.len() % 2 == 0 && all_digits(d) {
        Some(pairs_value(d))
    } else {
        None
    }
}

fn digit(c: u8) -> (r: Option<u8>)
    ensures
        r == digit_value(c),
        r matches Some(v) ==> v < 16,
{
    if 0x30 <= c && c <= 0x39 {
        Some(c - 0x30)
    } else if 0x61 <= c && c <= 0x66 {
        Some(c - 0x61 + 10)
    } else if 0x41 <= c && c <= 0x46 {
        Some(c - 0x41 + 10)
    } else {
        None
    }
}

/// Decodes hexadecimal text; `None` where it is not an optional `0x`
/// followed by an even number of digits.
pub fn decode(s: &[u8]) -> (r: Option<Vec<u8>>)
    ensures
        r is Some <==> decoded(s@) is Some,
        r matches Some(v) ==> Some(v@) == decoded(s@),
{
    let start: usize = if s.len() >= 2 && s[0] == 0x30 && s[1] == 0x78 {
        2
    } else {
        0
    };
    let ghost d = digits_of(s@);
    assert(d =~= s@.subrange(start as int, s@.len() as int));
    if (s.len() - start) % 2 != 0 {
        return None;
    }
    let len = s.len();
    let n = (len - start) / 2;
    let mut out: Vec<u8> = Vec::new();
    let mut k: usize = 0;
    while k < n
        invariant
            len == s@.len(),
            d == digits_of(s@),
            start <= s@.len(),
            start + d.len() == s@.len(),
            d =~= s@.subrange(start as int, s@.len() as int),
            n == d.len() / 2,
            2 * n == d.len(),
            d.len() % 2 == 0,
            k <= n,
            out@.len() == k,
            forall|i: int| 0 <= i < 2 * k ==> (#[trigger] digit_value(d[i])) is Some,
            forall|j: int| 0 <= j < k ==> #[trigger] out@[j] == pairs_value(d)[j],
        decreases n - k,
    {
        assert(s@[start + 2 * k] == d[2 * k as int]);
        assert(s@[start + 2 * k + 1] == d[2 * k as int + 1]);
        let hi = digit(s[start + 2 * k]);
        let lo = digit(s[start + 2 * k + 1]);
        match (hi, lo) {
            (Some(h), Some(l)) => {
                out.push(h * 16 + l);
            },
            _ => {
                proof {
                    if all_digits(d) {
                        assert(digit_value(d[2 * k as int]) is Some);
                        assert(digit_value(d[2 * k as int + 1]) is Some);
                    }
                }
                return None;
            },
        }
        k = k + 1;
    }
    assert(all_digits(d)) by {
        assert forall|i: int| 0 <= i < d.len() implies (#[trigger] digit_value(d[i])) is Some by {
            assert(i < 2 * k);
        }
    }
    assert(out@ =~= pairs_value(d));
    Some(out)
}

} // verus!
