//! Text building blocks for the wire: decimal renderings of integers,
//! lowercase hexadecimal renderings of byte strings, and JSON string
//! escaping. Each executable builder is proved to produce exactly the
//! character sequence its specification names.

use vstd::prelude::*;

verus! {

/// The decimal digit character for `d`.
pub open spec fn spec_dec_digit(d: int) -> char
    recommends
        0 <= d < 10,
{
    if d == 0 {
        '0'
    } else if d == 1 {
        '1'
    } else if d == 2 {
        '2'
    } else if d == 3 {
        '3'
    } else if d == 4 {
        '4'
    } else if d == 5 {
        '5'
    } else if d == 6 {
        '6'
    } else if d == 7 {
        '7'
    } else if d == 8 {
        '8'
    } else {
        '9'
    }
}

/// The decimal rendering of `n`, without leading zeroes (a single `0` for
/// zero).
pub open spec fn spec_dec_str(n: nat) -> Seq<char>
    decreases n,
{
    if n < 10 {
        seq![spec_dec_digit(n as int)]
    } else {
        spec_dec_str(n / 10).push(spec_dec_digit((n % 10) as int))
    }
}

/// The lowercase hexadecimal digit character for `d`.
pub open spec fn spec_hex_digit(d: int) -> char
    recommends
        0 <= d < 16,
{
    if d < 10 {
        spec_dec_digit(d)
    } else if d == 10 {
        'a'
    } else if d == 11 {
        'b'
    } else if d == 12 {
        'c'
    } else if d == 13 {
        'd'
    } else if d == 14 {
        'e'
    } else {
        'f'
    }
}

/// The two lowercase hexadecimal digits of one byte.
pub open spec fn spec_hex_byte(b: u8) -> Seq<char> {
    seq![spec_hex_digit(b as int / 16), spec_hex_digit(b as int % 16)]
}

/// The lowercase hexadecimal rendering of a byte string, two digits per
/// byte.
pub open spec fn spec_hex_str(bytes: Seq<u8>) -> Seq<char>
    decreases bytes.len(),
{
    if bytes.len() == 0 {
        Seq::empty()
    } else {
        spec_hex_str(bytes.drop_last()) + spec_hex_byte(bytes.last())
    }
}

/// The hexadecimal rendering of a byte string is two digits per byte.
pub proof fn lemma_hex_str_len(bytes: Seq<u8>)
    ensures
        spec_hex_str(bytes).len() == 2 * bytes.len(),
    decreases bytes.len(),
{
    if bytes.len() > 0 {
        lemma_hex_str_len(bytes.drop_last());
    }
}

fn dec_digit_str(d: u64) -> (r: &'static str)
    requires
        d < 10,
    ensures
        r@ == seq![spec_dec_digit(d as int)],
{
    let r: &'static str = match d {
        0 => "0",
        1 => "1",
        2 => "2",
        3 => "3",
        4 => "4",
        5 => "5",
        6 => "6",
        7 => "7",
        8 => "8",
        _ => "9",
    };
    proof {
        reveal_strlit("0");
        reveal_strlit("1");
        reveal_strlit("2");
        reveal_strlit("3");
        reveal_strlit("4");
        reveal_strlit("5");
        reveal_strlit("6");
        reveal_strlit("7");
        reveal_strlit("8");
        reveal_strlit("9");
        assert(r@ =~= seq![spec_dec_digit(d as int)]);
    }
    r
}

fn hex_digit_str(d: u64) -> (r: &'static str)
    requires
        d < 16,
    ensures
        r@ == seq![spec_hex_digit(d as int)],
{
    if d < 10 {
        dec_digit_str(d)
    } else {
        let r: &'static str = match d {
            10 => "a",
            11 => "b",
            12 => "c",
            13 => "d",
            14 => "e",
            _ => "f",
        };
        proof {
            reveal_strlit("a");
            reveal_strlit("b");
            reveal_strlit("c");
            reveal_strlit("d");
            reveal_strlit("e");
            reveal_strlit("f");
            assert(r@ =~= seq![spec_hex_digit(d as int)]);
        }
        r
    }
}

/// Append the decimal rendering of `n` to `out`.
pub fn append_dec_u64(out: &mut String, n: u64)
    ensures
        final(out)@ == old(out)@ + spec_dec_str(n as nat),
    decreases n,
{
    if n < 10 {
        out.append(dec_digit_str(n));
    } else {
        append_dec_u64(out, n / 10);
        out.append(dec_digit_str(n % 10));
        proof {
            assert(spec_dec_str(n as nat)
                =~= spec_dec_str(n as nat / 10).push(spec_dec_digit((n % 10) as int)));
            assert(old(out)@ + spec_dec_str(n as nat)
                =~= (old(out)@ + spec_dec_str(n as nat / 10))
                    + seq![spec_dec_digit((n % 10) as int)]);
        }
    }
}

/// The decimal rendering of `n` as a fresh string.
pub fn dec_u64_string(n: u64) -> (r: String)
    ensures
        r@ == spec_dec_str(n as nat),
{
    let mut out = String::new();
    append_dec_u64(&mut out, n);
    proof {
        assert(Seq::<char>::empty() + spec_dec_str(n as nat) =~= spec_dec_str(n as nat));
    }
    out
}

/// Append the lowercase hexadecimal rendering of `bytes` to `out`, two
/// digits per byte.
pub fn append_hex(out: &mut String, bytes: &[u8])
    ensures
        final(out)@ == old(out)@ + spec_hex_str(bytes@),
{
    let n = bytes.len();
    let mut i: usize = 0;
    proof {
        assert(bytes@.subrange(0, 0) =~= Seq::<u8>::empty());
        assert(old(out)@ + spec_hex_str(bytes@.subrange(0, 0)) =~= old(out)@);
    }
    while i < n
        invariant
            n == bytes@.len(),
            i <= n,
            out@ == old(out)@ + spec_hex_str(bytes@.subrange(0, i as int)),
        decreases n - i,
    {
        let b = bytes[i];
        let ghost before = out@;
        out.append(hex_digit_str(b as u64 / 16));
        out.append(hex_digit_str(b as u64 % 16));
        proof {
            let pre = bytes@.subrange(0, i as int);
            let cur = bytes@.subrange(0, i + 1);
            assert(cur.drop_last() =~= pre);
            assert(cur.last() == bytes@[i as int]);
            assert(out@ =~= before + spec_hex_byte(bytes@[i as int]));
            assert(out@ =~= old(out)@ + spec_hex_str(cur));
        }
        i += 1;
    }
    proof {
        assert(bytes@.subrange(0, n as int) =~= bytes@);
    }
}

/// The decimal rendering of `n` padded to two digits.
pub open spec fn spec_pad2(n: int) -> Seq<char>
    recommends
        0 <= n < 100,
{
    seq![spec_dec_digit(n / 10), spec_dec_digit(n % 10)]
}

/// The decimal rendering of `n` padded to four digits.
pub open spec fn spec_pad4(n: int) -> Seq<char>
    recommends
        0 <= n < 10000,
{
    seq![
        spec_dec_digit(n / 1000),
        spec_dec_digit((n / 100) % 10),
        spec_dec_digit((n / 10) % 10),
        spec_dec_digit(n % 10),
    ]
}

/// Append the two-digit rendering of `n` to `out`.
pub fn append_pad2(out: &mut String, n: u64)
    requires
        n < 100,
    ensures
        final(out)@ == old(out)@ + spec_pad2(n as int),
{
    out.append(dec_digit_str(n / 10));
    out.append(dec_digit_str(n % 10));
    proof {
        assert(out@ =~= old(out)@ + spec_pad2(n as int));
    }
}

/// Append the four-digit rendering of `n` to `out`.
pub fn append_pad4(out: &mut String, n: u64)
    requires
        n < 10000,
    ensures
        final(out)@ == old(out)@ + spec_pad4(n as int),
{
    out.append(dec_digit_str(n / 1000));
    out.append(dec_digit_str((n / 100) % 10));
    out.append(dec_digit_str((n / 10) % 10));
    out.append(dec_digit_str(n % 10));
    proof {
        assert(out@ =~= old(out)@ + spec_pad4(n as int));
    }
}

/// How one character stands inside a JSON string: quotes and backslashes
/// are escaped, the named control characters take their short escapes, the
/// rest of the control characters take the `\u00..` form, and everything
/// else stands as itself.
pub open spec fn spec_escape_char(c: char) -> Seq<char> {
    if c == '"' {
        seq!['\\', '"']
    } else if c == '\\' {
        seq!['\\', '\\']
    } else if c == '\u{8}' {
        seq!['\\', 'b']
    } else if c == '\t' {
        seq!['\\', 't']
    } else if c == '\n' {
        seq!['\\', 'n']
    } else if c == '\u{c}' {
        seq!['\\', 'f']
    } else if c == '\r' {
        seq!['\\', 'r']
    } else if (c as u32) < 32 {
        seq!['\\', 'u', '0', '0', spec_hex_digit(c as u32 as int / 16), spec_hex_digit(
            c as u32 as int % 16,
        )]
    } else {
        seq![c]
    }
}

/// The body of the JSON string rendering `s`: every character escaped as
/// JSON demands.
pub open spec fn spec_escape(s: Seq<char>) -> Seq<char>
    decreases s.len(),
{
    if s.len() == 0 {
        Seq::empty()
    } else {
        spec_escape(s.drop_last()) + spec_escape_char(s.last())
    }
}

/// Append `s`, escaped as the body of a JSON string, to `out`.
pub fn append_json_escaped(out: &mut String, s: &str)
    ensures
        final(out)@ == old(out)@ + spec_escape(s@),
{
    let n = s.unicode_len();
    let mut i: usize = 0;
    proof {
        assert(s@.subrange(0, 0) =~= Seq::<char>::empty());
        assert(old(out)@ + spec_escape(s@.subrange(0, 0)) =~= old(out)@);
    }
    while i < n
        invariant
            n == s@.len(),
            i <= n,
            out@ == old(out)@ + spec_escape(s@.subrange(0, i as int)),
        decreases n - i,
    {
        let c = s.get_char(i);
        let ghost before = out@;
        if c == '"' {
            out.append("\\\"");
            proof {
                reveal_strlit("\\\"");
                assert(out@ =~= before + spec_escape_char(c));
            }
        } else if c == '\\' {
            out.append("\\\\");
            proof {
                reveal_strlit("\\\\");
                assert(out@ =~= before + spec_escape_char(c));
            }
        } else if c == '\u{8}' {
            out.append("\\b");
            proof {
                reveal_strlit("\\b");
                assert(out@ =~= before + spec_escape_char(c));
            }
        } else if c == '\t' {
            out.append("\\t");
            proof {
                reveal_strlit("\\t");
                assert(out@ =~= before + spec_escape_char(c));
            }
        } else if c == '\n' {
            out.append("\\n");
            proof {
                reveal_strlit("\\n");
                assert(out@ =~= before + spec_escape_char(c));
            }
        } else if c == '\u{c}' {
            out.append("\\f");
            proof {
                reveal_strlit("\\f");
                assert(out@ =~= before + spec_escape_char(c));
            }
        } else if c == '\r' {
            out.append("\\r");
            proof {
                reveal_strlit("\\r");
                assert(out@ =~= before + spec_escape_char(c));
            }
        } else if (c as u32) < 32 {
            out.append("\\u00");
            out.append(hex_digit_str(c as u64 / 16));
            out.append(hex_digit_str(c as u64 % 16));
            proof {
                reveal_strlit("\\u00");
                assert(out@ =~= before + spec_escape_char(c));
            }
        } else {
            out.append(s.substring_char(i, i + 1));
            proof {
                assert(s@.subrange(i as int, i + 1) =~= seq![s@[i as int]]);
                assert(out@ =~= before + spec_escape_char(c));
            }
        }
        proof {
            let pre = s@.subrange(0, i as int);
            let cur = s@.subrange(0, i + 1);
            assert(cur.drop_last() =~= pre);
            assert(cur.last() == s@[i as int]);
            assert(out@ =~= old(out)@ + spec_escape(cur));
        }
        i += 1;
    }
    proof {
        assert(s@.subrange(0, n as int) =~= s@);
    }
}

} // verus!
