//! Byte-level building blocks for the JSON request bodies the client sends:
//! literal text, and string content escaped as a JSON string literal.

use vstd::prelude::*;
use vstd::string::StrSliceExecFns;
use vstd::string::StringSliceAdditionalSpecFns;

verus! {

/// Byte of the lowercase hex digit for `n`.
pub open spec fn hex_byte(n: int) -> u8 {
    if n < 10 {
        (0x30 + n) as u8
    } else {
        (0x57 + n) as u8
    }
}

/// How one byte of string content appears inside a JSON string literal:
/// quote and backslash get a backslash escape, control bytes a `\u00XX`
/// escape, and everything else (ASCII or UTF-8 continuation alike) passes
/// through.
pub open spec fn esc_byte(b: u8) -> Seq<u8> {
    if b == 0x22 {
        seq![0x5cu8, 0x22u8]
    } else if b == 0x5c {
        seq![0x5cu8, 0x5cu8]
    } else if b < 0x20 {
        seq![0x5cu8, 0x75u8, 0x30u8, 0x30u8, hex_byte(b as int / 16), hex_byte(b as int % 16)]
    } else {
        seq![b]
    }
}

/// A whole string's content, escaped byte by byte.
pub open spec fn escape_bytes(s: Seq<u8>) -> Seq<u8>
    decreases s.len(),
{
    if s.len() == 0 {
        Seq::empty()
    } else {
        esc_byte(s[0]) + escape_bytes(s.drop_first())
    }
}

proof fn lemma_escape_append_one(s: Seq<u8>, b: u8)
    ensures
        escape_bytes(s.push(b)) == escape_bytes(s) + esc_byte(b),
    decreases s.len(),
{
    if s.len() == 0 {
        assert(s.push(b).drop_first() =~= Seq::<u8>::empty());
        assert(s.push(b)[0] == b);
        assert(escape_bytes(Seq::<u8>::empty()) == Seq::<u8>::empty());
        assert(escape_bytes(s.push(b)) == esc_byte(b) + escape_bytes(Seq::<u8>::empty()));
        assert(escape_bytes(s) == Seq::<u8>::empty());
        assert(escape_bytes(s.push(b)) =~= escape_bytes(s) + esc_byte(b));
    } else {
        assert(s.push(b).drop_first() =~= s.drop_first().push(b));
        lemma_escape_append_one(s.drop_first(), b);
        assert(s.push(b)[0] == s[0]);
        assert(escape_bytes(s.push(b)) == esc_byte(s[0]) + escape_bytes(s.drop_first().push(b)));
        assert(escape_bytes(s) == esc_byte(s[0]) + escape_bytes(s.drop_first()));
        assert(esc_byte(s[0]) + (escape_bytes(s.drop_first()) + esc_byte(b)) =~= (esc_byte(s[0])
            + escape_bytes(s.drop_first())) + esc_byte(b));
        assert(escape_bytes(s.push(b)) =~= escape_bytes(s) + esc_byte(b));
    }
}

fn hex_digit(n: u8) -> (r: u8)
    requires
        n < 16,
    ensures
        r == hex_byte(n as int),
{
    if n < 10 {
        0x30 + n
    } else {
        0x57 + n
    }
}

/// Appends the UTF-8 bytes of `s` unchanged.
pub fn push_lit(out: &mut Vec<u8>, s: &str)
    ensures
        final(out)@ == old(out)@ + s.spec_bytes(),
{
    let bv: Vec<u8> = s.as_bytes_vec();
    let ghost base = out@;
    let mut i: usize = 0;
    proof {
        assert(base + bv@.take(0) =~= base);
    }
    while i < bv.len()
        invariant
            i <= bv@.len(),
            bv@ == s.spec_bytes(),
            out@ == base + bv@.take(i as int),
        decreases bv@.len() - i,
    {
        out.push(bv[i]);
        proof {
            assert(bv@.take(i as int).push(bv@[i as int]) =~= bv@.take(i as int + 1));
            assert(out@ =~= base + bv@.take(i as int + 1));
        }
        i = i + 1;
    }
    proof {
        assert(bv@.take(bv@.len() as int) =~= bv@);
    }
}

/// Appends the escaped form of `s`'s bytes.
pub fn push_escaped(out: &mut Vec<u8>, s: &Vec<u8>)
    ensures
        final(out)@ == old(out)@ + escape_bytes(s@),
{
    let ghost base = out@;
    let mut i: usize = 0;
    proof {
        assert(s@.take(0) =~= Seq::<u8>::empty());
        assert(base + escape_bytes(s@.take(0)) =~= base);
    }
    while i < s.len()
        invariant
            i <= s@.len(),
            out@ == base + escape_bytes(s@.take(i as int)),
        decreases s@.len() - i,
    {
        let b: u8 = s[i];
        if b == 0x22 {
            out.push(0x5c);
            out.push(0x22);
        } else if b == 0x5c {
            out.push(0x5c);
            out.push(0x5c);
        } else if b < 0x20 {
            out.push(0x5c);
            out.push(0x75);
            out.push(0x30);
            out.push(0x30);
            out.push(hex_digit(b / 16));
            out.push(hex_digit(b % 16));
        } else {
            out.push(b);
        }
        proof {
            assert(s@.take(i as int).push(s@[i as int]) =~= s@.take(i as int + 1));
            lemma_escape_append_one(s@.take(i as int), s@[i as int]);
            assert(out@ =~= base + escape_bytes(s@.take(i as int + 1)));
        }
        i = i + 1;
    }
    proof {
        assert(s@.take(s@.len() as int) =~= s@);
    }
}

} // verus!
