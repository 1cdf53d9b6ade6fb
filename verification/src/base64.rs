//! Base64 codec for the token pipeline.
//!
//! Credentials and challenge programs arrive as standard base64 with padding;
//! minted tokens leave as web-safe base64 without padding. The decoder is
//! strict: it accepts exactly the canonical encodings, so decoding succeeds
//! if and only if the input is a canonical standard-alphabet encoding.

use vstd::prelude::*;
use vstd::string::StrSliceExecFns;

use crate::error::{Error, ProtocolError};

verus! {

/// Value of a standard-alphabet base64 digit, or -1 for any other character.
pub open spec fn b64_val(c: char) -> int {
    let u = c as u32;
    if 65 <= u < 91 {
        u - 65
    } else if 97 <= u < 123 {
        u - 71
    } else if 48 <= u < 58 {
        u + 4
    } else if u == 43 {
        62
    } else if u == 47 {
        63
    } else {
        -1
    }
}

/// Digit of the web-safe alphabet for a 6-bit value.
pub open spec fn b64url_char(v: int) -> char {
    if 0 <= v < 26 {
        ((65 + v) as u8) as char
    } else if 26 <= v < 52 {
        ((71 + v) as u8) as char
    } else if 52 <= v < 62 {
        ((v - 4) as u8) as char
    } else if v == 62 {
        45u8 as char
    } else {
        95u8 as char
    }
}

/// Digit of the standard alphabet for a 6-bit value.
pub open spec fn b64_std_char(v: int) -> char {
    if 0 <= v < 26 {
        ((65 + v) as u8) as char
    } else if 26 <= v < 52 {
        ((71 + v) as u8) as char
    } else if 52 <= v < 62 {
        ((v - 4) as u8) as char
    } else if v == 62 {
        43u8 as char
    } else {
        47u8 as char
    }
}

/// Whether one four-character group is canonical. Padding may appear only in
/// the last group of an encoding, marked by `is_last`.
pub open spec fn b64_group_ok(c0: char, c1: char, c2: char, c3: char, is_last: bool) -> bool {
    if c3 == '=' && is_last {
        if c2 == '=' {
            b64_val(c0) >= 0 && b64_val(c1) >= 0 && b64_val(c1) % 16 == 0
        } else {
            b64_val(c0) >= 0 && b64_val(c1) >= 0 && b64_val(c2) >= 0 && b64_val(c2) % 4 == 0
        }
    } else {
        b64_val(c0) >= 0 && b64_val(c1) >= 0 && b64_val(c2) >= 0 && b64_val(c3) >= 0
    }
}

/// The bytes one group decodes to (meaningful only for groups that pass
/// `b64_group_ok`).
pub open spec fn b64_group_bytes(c0: char, c1: char, c2: char, c3: char) -> Seq<u8> {
    let v0 = b64_val(c0);
    let v1 = b64_val(c1);
    let v2 = b64_val(c2);
    let v3 = b64_val(c3);
    if c2 == '=' {
        seq![(v0 * 4 + v1 / 16) as u8]
    } else if c3 == '=' {
        seq![(v0 * 4 + v1 / 16) as u8, ((v1 % 16) * 16 + v2 / 4) as u8]
    } else {
        seq![
            (v0 * 4 + v1 / 16) as u8,
            ((v1 % 16) * 16 + v2 / 4) as u8,
            ((v2 % 4) * 64 + v3) as u8,
        ]
    }
}

/// Whether every group of `s` is canonical, recursing group by group.
pub open spec fn b64_groups_valid(s: Seq<char>) -> bool
    decreases s.len(),
{
    if s.len() < 4 {
        s.len() == 0
    } else {
        b64_group_ok(s[0], s[1], s[2], s[3], s.len() == 4) && b64_groups_valid(s.skip(4))
    }
}

/// Whether `s` is a canonical standard-alphabet base64 encoding.
pub open spec fn b64_valid(s: Seq<char>) -> bool {
    s.len() % 4 == 0 && b64_groups_valid(s)
}

/// The bytes `s` decodes to (meaningful only when `b64_valid(s)`).
pub open spec fn b64_decode_seq(s: Seq<char>) -> Seq<u8>
    decreases s.len(),
{
    if s.len() < 4 {
        Seq::empty()
    } else {
        b64_group_bytes(s[0], s[1], s[2], s[3]) + b64_decode_seq(s.skip(4))
    }
}

/// Web-safe, unpadded base64 encoding of a byte sequence.
pub open spec fn b64_encode_websafe(s: Seq<u8>) -> Seq<char>
    decreases s.len(),
{
    if s.len() == 0 {
        Seq::empty()
    } else if s.len() == 1 {
        let b0 = s[0] as int;
        seq![b64url_char(b0 / 4), b64url_char((b0 % 4) * 16)]
    } else if s.len() == 2 {
        let b0 = s[0] as int;
        let b1 = s[1] as int;
        seq![b64url_char(b0 / 4), b64url_char((b0 % 4) * 16 + b1 / 16), b64url_char((b1 % 16) * 4)]
    } else {
        let b0 = s[0] as int;
        let b1 = s[1] as int;
        let b2 = s[2] as int;
        seq![
            b64url_char(b0 / 4),
            b64url_char((b0 % 4) * 16 + b1 / 16),
            b64url_char((b1 % 16) * 4 + b2 / 64),
            b64url_char(b2 % 64),
        ] + b64_encode_websafe(s.skip(3))
    }
}

/// Standard base64 encoding with padding, the inverse of `b64_decode_seq` on
/// canonical input.
pub open spec fn b64_encode_std(s: Seq<u8>) -> Seq<char>
    decreases s.len(),
{
    if s.len() == 0 {
        Seq::empty()
    } else if s.len() == 1 {
        let b0 = s[0] as int;
        seq![b64_std_char(b0 / 4), b64_std_char((b0 % 4) * 16), '=', '=']
    } else if s.len() == 2 {
        let b0 = s[0] as int;
        let b1 = s[1] as int;
        seq![b64_std_char(b0 / 4), b64_std_char((b0 % 4) * 16 + b1 / 16), b64_std_char((b1 % 16) * 4), '=']
    } else {
        let b0 = s[0] as int;
        let b1 = s[1] as int;
        let b2 = s[2] as int;
        seq![
            b64_std_char(b0 / 4),
            b64_std_char((b0 % 4) * 16 + b1 / 16),
            b64_std_char((b1 % 16) * 4 + b2 / 64),
            b64_std_char(b2 % 64),
        ] + b64_encode_std(s.skip(3))
    }
}

/// A standard-alphabet digit carries its value and is never padding.
proof fn lemma_b64_char_val(v: int)
    requires
        0 <= v < 64,
    ensures
        b64_val(b64_std_char(v)) == v,
        b64_std_char(v) != '=',
{
}

/// Law: decoding inverts encoding — every standard encoding is canonical,
/// and decoding it yields exactly the bytes that were encoded.
pub proof fn lemma_base64_round_trip(b: Seq<u8>)
    ensures
        b64_valid(b64_encode_std(b)),
        b64_decode_seq(b64_encode_std(b)) == b,
    decreases b.len(),
{
    let e = b64_encode_std(b);
    if b.len() == 0 {
    } else if b.len() == 1 {
        let b0 = b[0] as int;
        lemma_b64_char_val(b0 / 4);
        lemma_b64_char_val((b0 % 4) * 16);
        vstd::arithmetic::div_mod::lemma_fundamental_div_mod_converse(
            (b0 % 4) * 16,
            16,
            b0 % 4,
            0,
        );
        vstd::arithmetic::div_mod::lemma_fundamental_div_mod(b0, 4);
        assert(e.skip(4) =~= Seq::<char>::empty());
        assert(b64_groups_valid(Seq::<char>::empty()));
        assert(b64_group_bytes(e[0], e[1], e[2], e[3]) =~= seq![b[0]]);
        assert(b64_decode_seq(e.skip(4)) == Seq::<u8>::empty());
        assert(b64_decode_seq(e) == b64_group_bytes(e[0], e[1], e[2], e[3]) + b64_decode_seq(
            e.skip(4),
        ));
        assert(seq![b[0]] + Seq::<u8>::empty() =~= seq![b[0]]);
        assert(b =~= seq![b[0]]);
    } else if b.len() == 2 {
        let b0 = b[0] as int;
        let b1 = b[1] as int;
        lemma_b64_char_val(b0 / 4);
        lemma_b64_char_val((b0 % 4) * 16 + b1 / 16);
        lemma_b64_char_val((b1 % 16) * 4);
        vstd::arithmetic::div_mod::lemma_fundamental_div_mod_converse(
            (b0 % 4) * 16 + b1 / 16,
            16,
            b0 % 4,
            b1 / 16,
        );
        vstd::arithmetic::div_mod::lemma_fundamental_div_mod(b0, 4);
        vstd::arithmetic::div_mod::lemma_fundamental_div_mod_converse(
            (b1 % 16) * 4,
            4,
            b1 % 16,
            0,
        );
        vstd::arithmetic::div_mod::lemma_fundamental_div_mod(b1, 16);
        assert(e.skip(4) =~= Seq::<char>::empty());
        assert(b64_groups_valid(Seq::<char>::empty()));
        assert(b64_group_bytes(e[0], e[1], e[2], e[3]) =~= seq![b[0], b[1]]);
        assert(b64_decode_seq(e.skip(4)) == Seq::<u8>::empty());
        assert(b64_decode_seq(e) == b64_group_bytes(e[0], e[1], e[2], e[3]) + b64_decode_seq(
            e.skip(4),
        ));
        assert(seq![b[0], b[1]] + Seq::<u8>::empty() =~= seq![b[0], b[1]]);
        assert(b =~= seq![b[0], b[1]]);
    } else {
        let b0 = b[0] as int;
        let b1 = b[1] as int;
        let b2 = b[2] as int;
        lemma_b64_char_val(b0 / 4);
        lemma_b64_char_val((b0 % 4) * 16 + b1 / 16);
        lemma_b64_char_val((b1 % 16) * 4 + b2 / 64);
        lemma_b64_char_val(b2 % 64);
        vstd::arithmetic::div_mod::lemma_fundamental_div_mod_converse(
            (b0 % 4) * 16 + b1 / 16,
            16,
            b0 % 4,
            b1 / 16,
        );
        vstd::arithmetic::div_mod::lemma_fundamental_div_mod(b0, 4);
        vstd::arithmetic::div_mod::lemma_fundamental_div_mod_converse(
            (b1 % 16) * 4 + b2 / 64,
            4,
            b1 % 16,
            b2 / 64,
        );
        vstd::arithmetic::div_mod::lemma_fundamental_div_mod(b1, 16);
        vstd::arithmetic::div_mod::lemma_fundamental_div_mod(b2, 64);
        lemma_base64_round_trip(b.skip(3));
        let rest = b64_encode_std(b.skip(3));
        assert(e[0] == b64_std_char(b0 / 4));
        assert(e[1] == b64_std_char((b0 % 4) * 16 + b1 / 16));
        assert(e[2] == b64_std_char((b1 % 16) * 4 + b2 / 64));
        assert(e[3] == b64_std_char(b2 % 64));
        assert(e.skip(4) =~= rest);
        assert(b64_group_bytes(e[0], e[1], e[2], e[3]) =~= seq![b[0], b[1], b[2]]);
        assert(b64_decode_seq(e) =~= seq![b[0], b[1], b[2]] + b.skip(3));
        assert(seq![b[0], b[1], b[2]] + b.skip(3) =~= b);
    }
}

/// Relies on `String::push`: appends the given character to the string.
#[verifier::external_body]
pub(crate) fn push_char(s: &mut String, c: char)
    ensures
        final(s)@ == old(s)@.push(c),
{
    s.push(c);
}

/// Digit value of `c` in the standard alphabet, or -1.
fn b64_digit(c: char) -> (v: i8)
    ensures
        v as int == b64_val(c),
{
    let u = c as u32;
    if 65 <= u && u < 91 {
        (u - 65) as i8
    } else if 97 <= u && u < 123 {
        (u - 71) as i8
    } else if 48 <= u && u < 58 {
        (u + 4) as i8
    } else if u == 43 {
        62
    } else if u == 47 {
        63
    } else {
        -1
    }
}

/// Web-safe digit for a 6-bit value.
fn b64url_digit(v: u8) -> (c: char)
    requires
        v < 64,
    ensures
        c == b64url_char(v as int),
{
    if v < 26 {
        (65 + v) as char
    } else if v < 52 {
        (71 + v) as char
    } else if v < 62 {
        (v - 4) as char
    } else if v == 62 {
        45u8 as char
    } else {
        95u8 as char
    }
}

/// Decodes a canonical standard-alphabet base64 string. Succeeds exactly on
/// canonical encodings; anything else is a `Protocol` error.
pub fn base64_decode(s: &str) -> (r: Result<Vec<u8>, Error>)
    ensures
        r is Ok <==> b64_valid(s@),
        r is Ok ==> r->Ok_0@ == b64_decode_seq(s@),
{
    let n = s.unicode_len();
    if n % 4 != 0 {
        return Err(Error::Protocol(ProtocolError::UnexpectedField { index: 0 }));
    }
    let mut out: Vec<u8> = Vec::new();
    let mut i: usize = 0;
    proof {
        assert(s@.skip(0) =~= s@);
        assert(Seq::<u8>::empty() + b64_decode_seq(s@) =~= b64_decode_seq(s@));
    }
    while i < n
        invariant
            s@.len() == n,
            n % 4 == 0,
            i % 4 == 0,
            i <= n,
            b64_groups_valid(s@) <==> b64_groups_valid(s@.skip(i as int)),
            b64_groups_valid(s@.skip(i as int)) ==> b64_decode_seq(s@) == out@ + b64_decode_seq(
                s@.skip(i as int),
            ),
        decreases n - i,
    {
        let c0 = s.get_char(i);
        let c1 = s.get_char(i + 1);
        let c2 = s.get_char(i + 2);
        let c3 = s.get_char(i + 3);
        let v0 = b64_digit(c0);
        let v1 = b64_digit(c1);
        let v2 = b64_digit(c2);
        let v3 = b64_digit(c3);
        let is_last = i + 4 == n;
        proof {
            assert(s@.skip(i as int)[0] == c0);
            assert(s@.skip(i as int)[1] == c1);
            assert(s@.skip(i as int)[2] == c2);
            assert(s@.skip(i as int)[3] == c3);
            assert(s@.skip(i as int).skip(4) =~= s@.skip(i + 4));
        }
        let ok: bool = if c3 == '=' && is_last {
            if c2 == '=' {
                v0 >= 0 && v1 >= 0 && v1 % 16 == 0
            } else {
                v0 >= 0 && v1 >= 0 && v2 >= 0 && v2 % 4 == 0
            }
        } else {
            v0 >= 0 && v1 >= 0 && v2 >= 0 && v3 >= 0
        };
        if !ok {
            return Err(Error::Protocol(ProtocolError::UnexpectedField { index: i }));
        }
        let ghost prev = out@;
        if c2 == '=' {
            out.push((v0 as u8) * 4 + (v1 as u8) / 16);
        } else if c3 == '=' {
            out.push((v0 as u8) * 4 + (v1 as u8) / 16);
            out.push(((v1 as u8) % 16) * 16 + (v2 as u8) / 4);
        } else {
            out.push((v0 as u8) * 4 + (v1 as u8) / 16);
            out.push(((v1 as u8) % 16) * 16 + (v2 as u8) / 4);
            out.push(((v2 as u8) % 4) * 64 + (v3 as u8));
        }
        proof {
            assert(out@ =~= prev + b64_group_bytes(c0, c1, c2, c3));
            assert(prev + (b64_group_bytes(c0, c1, c2, c3) + b64_decode_seq(s@.skip(i + 4)))
                =~= out@ + b64_decode_seq(s@.skip(i + 4)));
        }
        i = i + 4;
    }
    proof {
        assert(s@.skip(n as int) =~= Seq::<char>::empty());
        assert(out@ + b64_decode_seq(s@.skip(n as int)) =~= out@);
    }
    Ok(out)
}

/// Encodes bytes as web-safe, unpadded base64.
pub fn base64_encode_websafe(bytes: &Vec<u8>) -> (r: String)
    ensures
        r@ == b64_encode_websafe(bytes@),
{
    let n = bytes.len();
    let mut out = String::new();
    let mut i: usize = 0;
    proof {
        assert(bytes@.skip(0) =~= bytes@);
        assert(Seq::<char>::empty() + b64_encode_websafe(bytes@) =~= b64_encode_websafe(bytes@));
    }
    while n - i >= 3
        invariant
            bytes@.len() == n,
            i <= n,
            out@ + b64_encode_websafe(bytes@.skip(i as int)) == b64_encode_websafe(bytes@),
        decreases n - i,
    {
        let b0 = bytes[i];
        let b1 = bytes[i + 1];
        let b2 = bytes[i + 2];
        proof {
            assert(bytes@.skip(i as int)[0] == b0);
            assert(bytes@.skip(i as int)[1] == b1);
            assert(bytes@.skip(i as int)[2] == b2);
            assert(bytes@.skip(i as int).skip(3) =~= bytes@.skip(i + 3));
        }
        let ghost prev = out@;
        let ghost group = seq![
            b64url_char(b0 as int / 4),
            b64url_char((b0 as int % 4) * 16 + b1 as int / 16),
            b64url_char((b1 as int % 16) * 4 + b2 as int / 64),
            b64url_char(b2 as int % 64),
        ];
        push_char(&mut out, b64url_digit(b0 / 4));
        push_char(&mut out, b64url_digit((b0 % 4) * 16 + b1 / 16));
        push_char(&mut out, b64url_digit((b1 % 16) * 4 + b2 / 64));
        push_char(&mut out, b64url_digit(b2 % 64));
        proof {
            assert(out@ =~= prev + group);
            assert(prev + (group + b64_encode_websafe(bytes@.skip(i + 3)))
                =~= out@ + b64_encode_websafe(bytes@.skip(i + 3)));
        }
        i = i + 3;
    }
    let ghost prev = out@;
    if n - i == 1 {
        let b0 = bytes[i];
        proof {
            assert(bytes@.skip(i as int)[0] == b0);
            assert(bytes@.skip(i as int).len() == 1);
        }
        push_char(&mut out, b64url_digit(b0 / 4));
        push_char(&mut out, b64url_digit((b0 % 4) * 16));
        proof {
            assert(out@ =~= prev + b64_encode_websafe(bytes@.skip(i as int)));
        }
    } else if n - i == 2 {
        let b0 = bytes[i];
        let b1 = bytes[i + 1];
        proof {
            assert(bytes@.skip(i as int)[0] == b0);
            assert(bytes@.skip(i as int)[1] == b1);
            assert(bytes@.skip(i as int).len() == 2);
        }
        push_char(&mut out, b64url_digit(b0 / 4));
        push_char(&mut out, b64url_digit((b0 % 4) * 16 + b1 / 16));
        push_char(&mut out, b64url_digit((b1 % 16) * 4));
        proof {
            assert(out@ =~= prev + b64_encode_websafe(bytes@.skip(i as int)));
        }
    } else {
        proof {
            assert(bytes@.skip(i as int) =~= Seq::<u8>::empty());
            assert(out@ =~= prev + b64_encode_websafe(bytes@.skip(i as int)));
        }
    }
    out
}

} // verus!
