//! Standard Base64 (RFC 4648, `+` `/` alphabet, `=` padding) encoding.

use vstd::prelude::*;
use crate::strings::push_char;

verus! {

/// The character that encodes a six-bit value.
pub open spec fn b64_symbol(v: u8) -> char {
    if v < 26 {
        (v + 65) as char
    } else if v < 52 {
        (v + 71) as char
    } else if v < 62 {
        (v - 4) as char
    } else if v == 62 {
        '+'
    } else {
        '/'
    }
}

/// Whether `c` may appear in an encoding: an alphabet symbol or the pad `=`.
pub open spec fn is_b64_output_char(c: char) -> bool {
    ||| ('A' <= c && c <= 'Z')
    ||| ('a' <= c && c <= 'z')
    ||| ('0' <= c && c <= '9')
    ||| c == '+'
    ||| c == '/'
    ||| c == '='
}

/// The four characters for one group of `n` (1 to 3) input bytes; missing
/// bytes read as zero and their sextets are replaced by `=`.
pub open spec fn encode_group(b0: u8, b1: u8, b2: u8, n: nat) -> Seq<char> {
    let s0 = (b0 / 4) as u8;
    let s1 = ((b0 % 4) * 16 + b1 / 16) as u8;
    let s2 = ((b1 % 16) * 4 + b2 / 64) as u8;
    let s3 = (b2 % 64) as u8;
    seq![
        b64_symbol(s0),
        b64_symbol(s1),
        if n > 1 { b64_symbol(s2) } else { '=' },
        if n > 2 { b64_symbol(s3) } else { '=' },
    ]
}

/// Base64 encoding of a byte sequence, three bytes at a time.
pub open spec fn base64_spec(data: Seq<u8>) -> Seq<char>
    decreases data.len(),
{
    if data.len() == 0 {
        seq![]
    } else if data.len() <= 3 {
        encode_group(
            data[0],
            if data.len() > 1 { data[1] } else { 0 },
            if data.len() > 2 { data[2] } else { 0 },
            data.len(),
        )
    } else {
        encode_group(data[0], data[1], data[2], 3) + base64_spec(data.skip(3))
    }
}

fn symbol(v: u8) -> (c: char)
    requires
        v < 64,
    ensures
        c == b64_symbol(v),
{
    if v < 26 {
        (v + 65) as char
    } else if v < 52 {
        (v + 71) as char
    } else if v < 62 {
        (v - 4) as char
    } else if v == 62 {
        '+'
    } else {
        '/'
    }
}

/// Encodes `data` as standard padded Base64.
pub fn base64_encode(data: &[u8]) -> (out: String)
    ensures
        out@ == base64_spec(data@),
{
    let mut out = String::new();
    let len = data.len();
    let mut i: usize = 0;
    assert(data@.skip(0) =~= data@);
    while i < len
        invariant
            i <= len,
            len == data@.len(),
            base64_spec(data@) == out@ + base64_spec(data@.skip(i as int)),
        decreases len - i,
    {
        let rest_len = len - i;
        let b0 = data[i];
        let b1: u8 = if rest_len > 1 { data[i + 1] } else { 0 };
        let b2: u8 = if rest_len > 2 { data[i + 2] } else { 0 };
        let ghost old_out = out@;
        let ghost rest = data@.skip(i as int);
        push_char(&mut out, symbol(b0 / 4));
        push_char(&mut out, symbol((b0 % 4) * 16 + b1 / 16));
        if rest_len > 1 {
            push_char(&mut out, symbol((b1 % 16) * 4 + b2 / 64));
        } else {
            push_char(&mut out, '=');
        }
        if rest_len > 2 {
            push_char(&mut out, symbol(b2 % 64));
        } else {
            push_char(&mut out, '=');
        }
        let ghost n: nat = if rest_len > 3 { 3 } else { rest_len as nat };
        assert(out@ =~= old_out + encode_group(b0, b1, b2, n));
        if rest_len <= 3 {
            assert(base64_spec(rest) == encode_group(b0, b1, b2, n));
            assert(data@.skip(len as int) =~= Seq::<u8>::empty());
            i = len;
        } else {
            assert(rest.skip(3) =~= data@.skip(i + 3));
            i = i + 3;
        }
        assert(base64_spec(data@) =~= out@ + base64_spec(data@.skip(i as int)));
    }
    assert(base64_spec(data@.skip(len as int)) =~= Seq::<char>::empty());
    out
}

/// Length law: an encoding has four characters for every started group of
/// three input bytes.
pub proof fn lemma_base64_length(data: Seq<u8>)
    ensures
        base64_spec(data).len() == 4 * ((data.len() + 2) / 3),
    decreases data.len(),
{
    if data.len() > 3 {
        lemma_base64_length(data.skip(3));
    }
}

/// Alphabet law: every character of an encoding is an alphabet symbol or `=`.
pub proof fn lemma_base64_alphabet(data: Seq<u8>)
    ensures
        forall|k: int| 0 <= k < base64_spec(data).len() ==> is_b64_output_char(#[trigger] base64_spec(data)[k]),
    decreases data.len(),
{
    assert forall|v: u8| v < 64 implies is_b64_output_char(#[trigger] b64_symbol(v)) by {
    }
    if data.len() > 3 {
        lemma_base64_alphabet(data.skip(3));
        let g = encode_group(data[0], data[1], data[2], 3);
        assert forall|k: int| 0 <= k < base64_spec(data).len() implies is_b64_output_char(#[trigger] base64_spec(data)[k]) by {
            if k >= 4 {
                assert(base64_spec(data)[k] == base64_spec(data.skip(3))[k - 4]);
            }
        }
    }
}

/// Concatenation law: when the first part is a whole number of three-byte
/// groups, the encoding of the concatenation is the concatenation of the
/// encodings.
pub proof fn lemma_base64_concat(a: Seq<u8>, b: Seq<u8>)
    requires
        a.len() % 3 == 0,
    ensures
        base64_spec(a + b) == base64_spec(a) + base64_spec(b),
    decreases a.len(),
{
    if a.len() == 0 {
        assert(a + b =~= b);
        assert(base64_spec(a) + base64_spec(b) =~= base64_spec(b));
    } else {
        let ab = a + b;
        assert(ab[0] == a[0] && ab[1] == a[1] && ab[2] == a[2]);
        assert(ab.skip(3) =~= a.skip(3) + b);
        lemma_base64_concat(a.skip(3), b);
        if a.len() == 3 {
            assert(a.skip(3) + b =~= b);
            assert(base64_spec(a.skip(3)) =~= Seq::<char>::empty());
            if b.len() == 0 {
                assert(ab =~= a);
                assert(base64_spec(a) + base64_spec(b) =~= base64_spec(a));
            } else {
                assert(base64_spec(ab) == encode_group(a[0], a[1], a[2], 3) + base64_spec(b));
            }
        } else {
            assert(base64_spec(ab) == encode_group(a[0], a[1], a[2], 3) + base64_spec(a.skip(3) + b));
            assert(base64_spec(a) == encode_group(a[0], a[1], a[2], 3) + base64_spec(a.skip(3)));
            assert(base64_spec(ab) =~= base64_spec(a) + base64_spec(b));
        }
    }
}

/// The six-bit value an alphabet symbol stands for (RFC 4648, table 1).
pub open spec fn b64_value(c: char) -> u8 {
    if 'A' <= c && c <= 'Z' {
        ((c as u32) - 65) as u8
    } else if 'a' <= c && c <= 'z' {
        ((c as u32) - 71) as u8
    } else if '0' <= c && c <= '9' {
        ((c as u32) + 4) as u8
    } else if c == '+' {
        62
    } else {
        63
    }
}

/// Bytes of one four-character group: three, or fewer when it ends in `=`.
pub open spec fn decode_group(c0: char, c1: char, c2: char, c3: char) -> Seq<u8> {
    let s0 = b64_value(c0);
    let s1 = b64_value(c1);
    let s2 = b64_value(c2);
    let s3 = b64_value(c3);
    let b0 = (s0 * 4 + s1 / 16) as u8;
    let b1 = ((s1 % 16) * 16 + s2 / 4) as u8;
    let b2 = ((s2 % 4) * 64 + s3) as u8;
    if c2 == '=' {
        seq![b0]
    } else if c3 == '=' {
        seq![b0, b1]
    } else {
        seq![b0, b1, b2]
    }
}

/// Standard Base64 decoding of padded text, four characters at a time.
pub open spec fn base64_decode_spec(s: Seq<char>) -> Seq<u8>
    decreases s.len(),
{
    if s.len() < 4 {
        Seq::empty()
    } else {
        decode_group(s[0], s[1], s[2], s[3]) + base64_decode_spec(s.skip(4))
    }
}

proof fn lemma_symbol_roundtrip(v: u8)
    requires
        v < 64,
    ensures
        b64_value(b64_symbol(v)) == v,
        b64_symbol(v) != '=',
{
}

proof fn lemma_group_roundtrip(b0: u8, b1: u8, b2: u8, n: nat)
    requires
        1 <= n <= 3,
        n < 3 ==> b2 == 0,
        n < 2 ==> b1 == 0,
    ensures
        ({
            let g = encode_group(b0, b1, b2, n);
            decode_group(g[0], g[1], g[2], g[3]) == seq![b0, b1, b2].take(n as int)
        }),
{
    let s0 = (b0 / 4) as u8;
    let s1 = ((b0 % 4) * 16 + b1 / 16) as u8;
    let s2 = ((b1 % 16) * 4 + b2 / 64) as u8;
    let s3 = (b2 % 64) as u8;
    lemma_symbol_roundtrip(s0);
    lemma_symbol_roundtrip(s1);
    lemma_symbol_roundtrip(s2);
    lemma_symbol_roundtrip(s3);
    assert(s0 * 4 + s1 / 16 == b0);
    assert((s1 % 16) * 16 + s2 / 4 == b1);
    assert((s2 % 4) * 64 + s3 == b2);
    let g = encode_group(b0, b1, b2, n);
    if n == 1 {
        assert(decode_group(g[0], g[1], g[2], g[3]) =~= seq![b0, b1, b2].take(1));
    } else if n == 2 {
        assert(decode_group(g[0], g[1], g[2], g[3]) =~= seq![b0, b1, b2].take(2));
    } else {
        assert(decode_group(g[0], g[1], g[2], g[3]) =~= seq![b0, b1, b2].take(3));
    }
}

/// Round trip: standard Base64 decoding gives back the encoded bytes.
pub proof fn lemma_base64_decodes(data: Seq<u8>)
    ensures
        base64_decode_spec(base64_spec(data)) == data,
    decreases data.len(),
{
    if data.len() == 0 {
        assert(base64_decode_spec(base64_spec(data)) =~= data);
    } else if data.len() <= 3 {
        let b1: u8 = if data.len() > 1 { data[1] } else { 0 };
        let b2: u8 = if data.len() > 2 { data[2] } else { 0 };
        let e = base64_spec(data);
        lemma_group_roundtrip(data[0], b1, b2, data.len());
        assert(e == encode_group(data[0], b1, b2, data.len()));
        assert(e.len() == 4);
        assert(e.skip(4) =~= Seq::<char>::empty());
        assert(base64_decode_spec(e.skip(4)) =~= Seq::<u8>::empty());
        assert(seq![data[0], b1, b2].take(data.len() as int) =~= data);
        assert(base64_decode_spec(e) =~= data);
    } else {
        let e = base64_spec(data);
        let g = encode_group(data[0], data[1], data[2], 3);
        lemma_group_roundtrip(data[0], data[1], data[2], 3);
        lemma_base64_decodes(data.skip(3));
        assert(e[0] == g[0] && e[1] == g[1] && e[2] == g[2] && e[3] == g[3]);
        assert(e.skip(4) =~= base64_spec(data.skip(3)));
        assert(seq![data[0], data[1], data[2]].take(3) + data.skip(3) =~= data);
        assert(base64_decode_spec(e) =~= data);
    }
}

/// Different byte sequences have different encodings.
pub proof fn lemma_base64_injective(a: Seq<u8>, b: Seq<u8>)
    requires
        base64_spec(a) == base64_spec(b),
    ensures
        a == b,
{
    lemma_base64_decodes(a);
    lemma_base64_decodes(b);
}

} // verus!
