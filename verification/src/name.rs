//! Directory names for installed versions.
//!
//! A version specifier (an npm version, a git branch, a local path) is stored
//! on disk under a directory whose name is the URL-safe base64 encoding
//! (alphabet `A-Z a-z 0-9 - _`, no padding) of the specifier's UTF-8 bytes.
//! Such a name never holds a path separator, and it decodes back to the
//! specifier it was made from.
use vstd::prelude::*;
use vstd::utf8::*;
use crate::text::push_char;
use crate::text::chars_of;
use crate::text::string_from_utf8;

verus! {

broadcast use vstd::seq_lib::group_seq_properties;

/// The character that stands for a six-bit value `v` (0 <= v < 64).
pub open spec fn sextet_char(v: int) -> char {
    if v < 26 {
        (65 + v) as char
    } else if v < 52 {
        (97 + v - 26) as char
    } else if v < 62 {
        (48 + v - 52) as char
    } else if v == 62 {
        '-'
    } else {
        '_'
    }
}

/// The six-bit value a character stands for, if it is in the alphabet.
pub open spec fn char_sextet(c: char) -> Option<int> {
    if 'A' <= c && c <= 'Z' {
        Some(c as int - 65)
    } else if 'a' <= c && c <= 'z' {
        Some(c as int - 97 + 26)
    } else if '0' <= c && c <= '9' {
        Some(c as int - 48 + 52)
    } else if c == '-' {
        Some(62)
    } else if c == '_' {
        Some(63)
    } else {
        None
    }
}

/// Whether a character belongs to the alphabet of encoded names.
pub open spec fn is_name_char(c: char) -> bool {
    char_sextet(c) is Some
}

/// URL-safe base64 encoding of a byte sequence, without padding: each group
/// of three bytes becomes four characters, a last group of one or two bytes
/// becomes two or three characters.
pub open spec fn b64_encode(b: Seq<u8>) -> Seq<char>
    decreases b.len(),
{
    if b.len() == 0 {
        seq![]
    } else {
        let b0 = b[0] as int;
        if b.len() == 1 {
            seq![sextet_char(b0 / 4), sextet_char((b0 % 4) * 16)]
        } else {
            let b1 = b[1] as int;
            if b.len() == 2 {
                seq![
                    sextet_char(b0 / 4),
                    sextet_char((b0 % 4) * 16 + b1 / 16),
                    sextet_char((b1 % 16) * 4),
                ]
            } else {
                let b2 = b[2] as int;
                seq![
                    sextet_char(b0 / 4),
                    sextet_char((b0 % 4) * 16 + b1 / 16),
                    sextet_char((b1 % 16) * 4 + b2 / 64),
                    sextet_char(b2 % 64),
                ] + b64_encode(b.skip(3))
            }
        }
    }
}

/// Decoding of `b64_encode`. It fails on a character outside the alphabet,
/// on a length that leaves one character over, and on a last group whose
/// unused bits are not zero (so that each byte sequence has one encoding).
pub open spec fn b64_decode(c: Seq<char>) -> Option<Seq<u8>>
    decreases c.len(),
{
    if c.len() == 0 {
        Some(seq![])
    } else if c.len() == 1 {
        None
    } else if c.len() == 2 {
        match (char_sextet(c[0]), char_sextet(c[1])) {
            (Some(s0), Some(s1)) => if s1 % 16 == 0 {
                Some(seq![(s0 * 4 + s1 / 16) as u8])
            } else {
                None
            },
            _ => None,
        }
    } else if c.len() == 3 {
        match (char_sextet(c[0]), char_sextet(c[1]), char_sextet(c[2])) {
            (Some(s0), Some(s1), Some(s2)) => if s2 % 4 == 0 {
                Some(seq![(s0 * 4 + s1 / 16) as u8, ((s1 % 16) * 16 + s2 / 4) as u8])
            } else {
                None
            },
            _ => None,
        }
    } else {
        match (char_sextet(c[0]), char_sextet(c[1]), char_sextet(c[2]), char_sextet(c[3])) {
            (Some(s0), Some(s1), Some(s2), Some(s3)) => match b64_decode(c.skip(4)) {
                Some(rest) => Some(
                    seq![
                        (s0 * 4 + s1 / 16) as u8,
                        ((s1 % 16) * 16 + s2 / 4) as u8,
                        ((s2 % 4) * 64 + s3) as u8,
                    ] + rest,
                ),
                None => None,
            },
            _ => None,
        }
    }
}

/// The directory name of a specifier: its UTF-8 bytes, base64-encoded.
pub open spec fn spec_encode(name: Seq<char>) -> Seq<char> {
    b64_encode(encode_utf8(name))
}

/// The specifier a directory name stands for, if it is one.
pub open spec fn spec_decode(encoded: Seq<char>) -> Option<Seq<char>> {
    match b64_decode(encoded) {
        Some(bytes) => if valid_utf8(bytes) {
            Some(decode_utf8(bytes))
        } else {
            None
        },
        None => None,
    }
}

proof fn lemma_sextet_roundtrip(v: int)
    requires
        0 <= v < 64,
    ensures
        char_sextet(sextet_char(v)) == Some(v),
{
}

proof fn lemma_char_roundtrip(c: char)
    requires
        char_sextet(c) is Some,
    ensures
        0 <= char_sextet(c).unwrap() < 64,
        sextet_char(char_sextet(c).unwrap()) == c,
{
}

proof fn lemma_chunk_bytes(b0: int, b1: int, b2: int)
    requires
        0 <= b0 < 256,
        0 <= b1 < 256,
        0 <= b2 < 256,
    ensures
        (b0 / 4) * 4 + ((b0 % 4) * 16 + b1 / 16) / 16 == b0,
        (((b0 % 4) * 16 + b1 / 16) % 16) * 16 + ((b1 % 16) * 4 + b2 / 64) / 4 == b1,
        (((b1 % 16) * 4 + b2 / 64) % 4) * 64 + b2 % 64 == b2,
        0 <= b0 / 4 < 64,
        0 <= (b0 % 4) * 16 + b1 / 16 < 64,
        0 <= (b1 % 16) * 4 + b2 / 64 < 64,
        0 <= b2 % 64 < 64,
        ((b0 % 4) * 16) % 16 == 0,
        ((b1 % 16) * 4) % 4 == 0,
{
}

/// Decoding an encoding gives back the bytes that were encoded.
pub proof fn lemma_b64_decode_encode(b: Seq<u8>)
    ensures
        b64_decode(b64_encode(b)) == Some(b),
    decreases b.len(),
{
    if b.len() == 0 {
        assert(b =~= seq![]);
    } else {
        let b0 = b[0] as int;
        let b1 = if b.len() > 1 { b[1] as int } else { 0 };
        let b2 = if b.len() > 2 { b[2] as int } else { 0 };
        lemma_chunk_bytes(b0, b1, b2);
        lemma_sextet_roundtrip(b0 / 4);
        lemma_sextet_roundtrip((b0 % 4) * 16 + b1 / 16);
        lemma_sextet_roundtrip((b1 % 16) * 4 + b2 / 64);
        lemma_sextet_roundtrip(b2 % 64);
        lemma_sextet_roundtrip((b0 % 4) * 16);
        lemma_sextet_roundtrip((b1 % 16) * 4);
        let e = b64_encode(b);
        if b.len() == 1 {
            assert(b64_decode(e).unwrap() =~= b);
        } else if b.len() == 2 {
            assert(b64_decode(e).unwrap() =~= b);
        } else {
            let rest = b.skip(3);
            lemma_b64_decode_encode(rest);
            let head = seq![
                sextet_char(b0 / 4),
                sextet_char((b0 % 4) * 16 + b1 / 16),
                sextet_char((b1 % 16) * 4 + b2 / 64),
                sextet_char(b2 % 64),
            ];
            assert(e == head + b64_encode(rest));
            assert(e.skip(4) =~= b64_encode(rest));
            assert(e.len() >= 4);
            assert(e[0] == head[0] && e[1] == head[1] && e[2] == head[2] && e[3] == head[3]);
            assert(b64_decode(e).unwrap() =~= b);
        }
    }
}

proof fn lemma_chunk_sextets(s0: int, s1: int, s2: int, s3: int)
    requires
        0 <= s0 < 64,
        0 <= s1 < 64,
        0 <= s2 < 64,
        0 <= s3 < 64,
    ensures
        0 <= s0 * 4 + s1 / 16 < 256,
        0 <= (s1 % 16) * 16 + s2 / 4 < 256,
        0 <= (s2 % 4) * 64 + s3 < 256,
        (s0 * 4 + s1 / 16) / 4 == s0,
        ((s0 * 4 + s1 / 16) % 4) * 16 + ((s1 % 16) * 16 + s2 / 4) / 16 == s1,
        (((s1 % 16) * 16 + s2 / 4) % 16) * 4 + ((s2 % 4) * 64 + s3) / 64 == s2,
        ((s2 % 4) * 64 + s3) % 64 == s3,
        s1 % 16 == 0 ==> ((s0 * 4 + s1 / 16) % 4) * 16 == s1,
        s2 % 4 == 0 ==> (((s1 % 16) * 16 + s2 / 4) % 16) * 4 == s2,
{
}

/// A sequence of characters that decodes is the encoding of what it decodes
/// to: each byte sequence has exactly one encoding.
pub proof fn lemma_b64_encode_decode(c: Seq<char>)
    requires
        b64_decode(c) is Some,
    ensures
        b64_encode(b64_decode(c).unwrap()) == c,
    decreases c.len(),
{
    let b = b64_decode(c).unwrap();
    if c.len() == 0 {
    } else {
        let s0 = char_sextet(c[0]).unwrap();
        let s1 = char_sextet(c[1]).unwrap();
        let s2 = if c.len() > 2 { char_sextet(c[2]).unwrap() } else { 0 };
        let s3 = if c.len() > 3 { char_sextet(c[3]).unwrap() } else { 0 };
        lemma_char_roundtrip(c[0]);
        lemma_char_roundtrip(c[1]);
        if c.len() > 2 {
            lemma_char_roundtrip(c[2]);
        }
        if c.len() > 3 {
            lemma_char_roundtrip(c[3]);
        }
        lemma_chunk_sextets(s0, s1, s2, s3);
        if c.len() == 2 {
            assert(b64_encode(b) =~= c);
        } else if c.len() == 3 {
            assert(b64_encode(b) =~= c);
        } else {
            let rest = b64_decode(c.skip(4)).unwrap();
            lemma_b64_encode_decode(c.skip(4));
            assert(b.skip(3) =~= rest);
            assert(b64_encode(b) =~= c);
        }
    }
}

/// Every character of an encoding is in the name alphabet; in particular an
/// encoded name never holds `/`, `.` or any other path syntax.
pub proof fn lemma_b64_encode_alphabet(b: Seq<u8>)
    ensures
        forall|i: int| 0 <= i < b64_encode(b).len() ==> is_name_char(#[trigger] b64_encode(b)[i]),
    decreases b.len(),
{
    if b.len() > 0 {
        let b0 = b[0] as int;
        let b1 = if b.len() > 1 { b[1] as int } else { 0 };
        let b2 = if b.len() > 2 { b[2] as int } else { 0 };
        lemma_chunk_bytes(b0, b1, b2);
        lemma_sextet_roundtrip(b0 / 4);
        lemma_sextet_roundtrip((b0 % 4) * 16 + b1 / 16);
        lemma_sextet_roundtrip((b1 % 16) * 4 + b2 / 64);
        lemma_sextet_roundtrip(b2 % 64);
        lemma_sextet_roundtrip((b0 % 4) * 16);
        lemma_sextet_roundtrip((b1 % 16) * 4);
        let e = b64_encode(b);
        if b.len() > 2 {
            let rest = b64_encode(b.skip(3));
            lemma_b64_encode_alphabet(b.skip(3));
            assert forall|i: int| 0 <= i < e.len() implies is_name_char(#[trigger] e[i]) by {
                if i >= 4 {
                    assert(e[i] == rest[i - 4]);
                }
            }
        }
    }
}

fn sextet_to_char(v: u8) -> (c: char)
    requires
        v < 64,
    ensures
        c == sextet_char(v as int),
{
    if v < 26 {
        (65 + v) as char
    } else if v < 52 {
        (97 + v - 26) as char
    } else if v < 62 {
        (48 + v - 52) as char
    } else if v == 62 {
        '-'
    } else {
        '_'
    }
}

fn char_to_sextet(c: char) -> (r: Option<u8>)
    ensures
        r matches Some(v) ==> char_sextet(c) == Some(v as int),
        r is None ==> char_sextet(c) is None,
{
    if 'A' <= c && c <= 'Z' {
        Some((c as u32 - 65) as u8)
    } else if 'a' <= c && c <= 'z' {
        Some((c as u32 - 97 + 26) as u8)
    } else if '0' <= c && c <= '9' {
        Some((c as u32 - 48 + 52) as u8)
    } else if c == '-' {
        Some(62)
    } else if c == '_' {
        Some(63)
    } else {
        None
    }
}

/// The directory name of a version specifier.
#[verifier::rlimit(30)]
pub fn encode(name: &str) -> (res: String)
    ensures
        res@ == spec_encode(name@),
{
    let bytes = name.as_bytes();
    let n = bytes.len();
    let mut out = String::new();
    let mut i: usize = 0;
    while i < n
        invariant
            i <= n,
            n == bytes@.len(),
            bytes@ == encode_utf8(name@),
            b64_encode(bytes@) == out@ + b64_encode(bytes@.skip(i as int)),
        decreases n - i,
    {
        let ghost rest = bytes@.skip(i as int);
        let b0 = bytes[i];
        push_char(&mut out, sextet_to_char(b0 / 4));
        if n - i == 1 {
            push_char(&mut out, sextet_to_char((b0 % 4) * 16));
            i = n;
        } else {
            let b1 = bytes[i + 1];
            push_char(&mut out, sextet_to_char((b0 % 4) * 16 + b1 / 16));
            if n - i == 2 {
                push_char(&mut out, sextet_to_char((b1 % 16) * 4));
                i = n;
            } else {
                let b2 = bytes[i + 2];
                push_char(&mut out, sextet_to_char((b1 % 16) * 4 + b2 / 64));
                push_char(&mut out, sextet_to_char(b2 % 64));
                assert(rest.skip(3) =~= bytes@.skip(i + 3));
                i = i + 3;
            }
        }
        assert(bytes@.skip(n as int) =~= seq![]);
    }
    assert(bytes@.skip(n as int) =~= seq![]);
    out
}

/// The version specifier a directory name stands for, or `None` when the
/// name is not the encoding of any specifier.
#[verifier::rlimit(60)]
pub fn decode(encoded: &str) -> (res: Option<String>)
    ensures
        res matches Some(s) ==> spec_decode(encoded@) == Some(s@),
        res is None ==> spec_decode(encoded@) is None,
{
    let c = chars_of(encoded);
    let n = c.len();
    let mut out: Vec<u8> = Vec::new();
    let mut i: usize = 0;
    while i < n
        invariant
            i <= n,
            n == c@.len(),
            c@ == encoded@,
            b64_decode(c@) == (match b64_decode(c@.skip(i as int)) {
                Some(r) => Some(out@ + r),
                None => None,
            }),
        decreases n - i,
    {
        let ghost rest = c@.skip(i as int);
        if n - i == 1 {
            return None;
        }
        let s0 = match char_to_sextet(c[i]) {
            Some(v) => v,
            None => return None,
        };
        let s1 = match char_to_sextet(c[i + 1]) {
            Some(v) => v,
            None => return None,
        };
        if n - i == 2 {
            if s1 % 16 != 0 {
                return None;
            }
            out.push(s0 * 4 + s1 / 16);
            i = n;
        } else {
            let s2 = match char_to_sextet(c[i + 2]) {
                Some(v) => v,
                None => return None,
            };
            if n - i == 3 {
                if s2 % 4 != 0 {
                    return None;
                }
                out.push(s0 * 4 + s1 / 16);
                out.push((s1 % 16) * 16 + s2 / 4);
                i = n;
            } else {
                let s3 = match char_to_sextet(c[i + 3]) {
                    Some(v) => v,
                    None => return None,
                };
                out.push(s0 * 4 + s1 / 16);
                out.push((s1 % 16) * 16 + s2 / 4);
                out.push((s2 % 4) * 64 + s3);
                assert(rest.skip(4) =~= c@.skip(i + 4));
                i = i + 4;
            }
        }
        proof {
            assert(c@.skip(n as int) =~= seq![]);
        }
    }
    assert(c@.skip(n as int) =~= seq![]);
    string_from_utf8(out)
}

/// A directory name decodes back to the specifier it was made from.
pub proof fn lemma_decode_encode(name: Seq<char>)
    ensures
        spec_decode(spec_encode(name)) == Some(name),
{
    lemma_b64_decode_encode(encode_utf8(name));
    encode_utf8_valid_utf8(name);
    encode_utf8_decode_utf8(name);
}

/// A name that decodes is the encoding of what it decodes to: a specifier
/// has exactly one directory name.
pub proof fn lemma_encode_decode(encoded: Seq<char>)
    requires
        spec_decode(encoded) is Some,
    ensures
        spec_encode(spec_decode(encoded).unwrap()) == encoded,
{
    lemma_b64_encode_decode(encoded);
    decode_utf8_encode_utf8(b64_decode(encoded).unwrap());
}

/// Distinct specifiers are stored under distinct directory names.
pub proof fn lemma_encode_injective(a: Seq<char>, b: Seq<char>)
    requires
        spec_encode(a) == spec_encode(b),
    ensures
        a == b,
{
    lemma_decode_encode(a);
    lemma_decode_encode(b);
}

/// A directory name holds only characters of the alphabet `A-Z a-z 0-9 - _`,
/// so it is a single path component and never `.` or `..`.
pub proof fn lemma_encode_alphabet(name: Seq<char>)
    ensures
        forall|i: int|
            0 <= i < spec_encode(name).len() ==> is_name_char(#[trigger] spec_encode(name)[i]),
{
    lemma_b64_encode_alphabet(encode_utf8(name));
}

/// A non-empty specifier has a non-empty directory name.
pub proof fn lemma_encode_nonempty(name: Seq<char>)
    requires
        name.len() > 0,
    ensures
        spec_encode(name).len() > 0,
{
    let bytes = encode_utf8(name);
    assert(bytes.len() > 0);
}

/// The alphabet of encoded names, in the order of the six-bit values:
/// `A-Z`, `a-z`, `0-9`, `-`, `_` (the URL-safe base64 alphabet).
pub open spec fn name_alphabet() -> Seq<char> {
    "ABCDEFGHIJKLMNOPQRSTUVWXYZabcdefghijklmnopqrstuvwxyz0123456789-_"@
}

/// The character for each six-bit value is the value-th character of the
/// URL-safe base64 alphabet.
pub proof fn lemma_sextet_char_is_alphabet(v: int)
    requires
        0 <= v < 64,
    ensures
        sextet_char(v) == name_alphabet()[v],
        char_sextet(name_alphabet()[v]) == Some(v),
{
    reveal_strlit("ABCDEFGHIJKLMNOPQRSTUVWXYZabcdefghijklmnopqrstuvwxyz0123456789-_");
}

} // verus!
