//! Command text as bytes: literal text and decimal integers.
use vstd::prelude::*;

verus! {

/// The decimal digits of `n`, most significant first, without leading zeros.
pub open spec fn digits(n: nat) -> Seq<u8>
    decreases n,
{
    if n < 10 {
        seq![(48 + n) as u8]
    } else {
        digits(n / 10).push((48 + n % 10) as u8)
    }
}

/// The decimal text of `n`, with a leading `-` when it is negative.
pub open spec fn decimal(n: int) -> Seq<u8> {
    if n < 0 {
        seq![45u8] + digits((-n) as nat)
    } else {
        digits(n as nat)
    }
}

fn push_digits(out: &mut Vec<u8>, n: u64)
    ensures
        final(out)@ == old(out)@ + digits(n as nat),
    decreases n,
{
    if n >= 10 {
        push_digits(out, n / 10);
    }
    out.push(48 + (n % 10) as u8);
    proof {
        if n >= 10 {
            assert(old(out)@ + digits((n / 10) as nat) + seq![(48 + n % 10) as u8]
                =~= old(out)@ + digits(n as nat));
        } else {
            assert(old(out)@ + seq![(48 + n) as u8] =~= old(out)@ + digits(n as nat));
        }
    }
}

/// Appends the decimal text of `n`.
pub fn push_decimal(out: &mut Vec<u8>, n: i64)
    ensures
        final(out)@ == old(out)@ + decimal(n as int),
{
    if n < 0 {
        out.push(45);
        let m: u64 = if n == i64::MIN {
            9223372036854775808u64
        } else {
            (-n) as u64
        };
        push_digits(out, m);
        proof {
            assert(old(out)@ + seq![45u8] + digits((-n) as nat) =~= old(out)@ + decimal(n as int));
        }
    } else {
        push_digits(out, n as u64);
    }
}

/// The bytes of a text, one per character (meant for ASCII text).
pub open spec fn bytes_of(s: Seq<char>) -> Seq<u8> {
    s.map_values(|c: char| c as u8)
}

/// Appends the text, one byte per character.
pub fn push_text(out: &mut Vec<u8>, text: &str)
    ensures
        final(out)@ == old(out)@ + bytes_of(text@),
{
    let n = text.unicode_len();
    let mut i: usize = 0;
    while i < n
        invariant
            n == text@.len(),
            i <= n,
            out@ == old(out)@ + bytes_of(text@.subrange(0, i as int)),
        decreases n - i,
    {
        let c = text.get_char(i);
        out.push(c as u8);
        i = i + 1;
        proof {
            assert(bytes_of(text@.subrange(0, i as int)) =~= bytes_of(text@.subrange(0, i - 1)).push(c as u8));
        }
    }
    assert(text@.subrange(0, n as int) =~= text@);
}

} // verus!
