//! Reading a JSON string literal back, byte by byte.
//!
//! The bridge does not take a serializer's word for what it wrote: a literal
//! goes on the wire only if this reader gets the caller's text back out of it.
//! The reader accepts the two-character escapes of JSON and `\u00XX` for an
//! ASCII character; a literal with any other escape is not accepted. That is
//! enough for every text: what a JSON writer writes for any bytes is proved
//! to read back as those bytes.

use vstd::prelude::*;

verus! {

/// The byte `"`.
pub const QUOTE: u8 = 0x22;

/// The byte `\`.
pub const BACKSLASH: u8 = 0x5c;

/// The value of a hexadecimal digit, in either case.
pub open spec fn hex_value(c: u8) -> Option<u8> {
    if 0x30 <= c <= 0x39 {
        Some((c - 0x30) as u8)
    } else if 0x61 <= c <= 0x66 {
        Some((c - 0x61 + 10) as u8)
    } else if 0x41 <= c <= 0x46 {
        Some((c - 0x41 + 10) as u8)
    } else {
        None
    }
}

/// The byte that the escape `\c` stands for.
pub open spec fn short_escape(c: u8) -> Option<u8> {
    if c == 0x22 {
        Some(0x22u8)
    } else if c == 0x5c {
        Some(0x5cu8)
    } else if c == 0x2f {
        Some(0x2fu8)
    } else if c == 0x62 {
        Some(0x08u8)
    } else if c == 0x66 {
        Some(0x0cu8)
    } else if c == 0x6e {
        Some(0x0au8)
    } else if c == 0x72 {
        Some(0x0du8)
    } else if c == 0x74 {
        Some(0x09u8)
    } else {
        None
    }
}

/// The byte that the first unit of `s` stands for, and the unit's width.
///
/// A unit is a plain byte (anything but a quote, a backslash or a control
/// character), a two-character escape, or `\u00XX` with `XX` below 80
/// hexadecimal. `None` where `s` starts with none of these.
pub open spec fn first_unit(s: Seq<u8>) -> Option<(u8, nat)> {
    if s.len() == 0 {
        None
    } else if s[0] == BACKSLASH {
        if s.len() < 2 {
            None
        } else if s[1] == 0x75 {
            if s.len() >= 6 && s[2] == 0x30 && s[3] == 0x30 && hex_value(s[4]) is Some
                && hex_value(s[5]) is Some && hex_value(s[4])->0 < 8 {
                Some(((hex_value(s[4])->0 * 16 + hex_value(s[5])->0) as u8, 6nat))
            } else {
                None
            }
        } else if short_escape(s[1]) is Some {
            Some((short_escape(s[1])->0, 2nat))
        } else {
            None
        }
    } else if s[0] == QUOTE || s[0] < 0x20 {
        None
    } else {
        Some((s[0], 1nat))
    }
}

/// The bytes that the contents of a string literal stand for.
pub open spec fn unescape(s: Seq<u8>) -> Option<Seq<u8>>
    decreases s.len(),
{
    if s.len() == 0 {
        Some(Seq::empty())
    } else {
        match first_unit(s) {
            None => None,
            Some((b, width)) => match unescape(s.skip(width as int)) {
                None => None,
                Some(rest) => Some(seq![b] + rest),
            },
        }
    }
}

/// The bytes that a string literal, quotes included, stands for.
pub open spec fn unquote(literal: Seq<u8>) -> Option<Seq<u8>> {
    if literal.len() >= 2 && literal[0] == QUOTE && literal.last() == QUOTE {
        unescape(literal.subrange(1, literal.len() - 1))
    } else {
        None
    }
}

/// Reading one unit off the front: `s` stands for `t` exactly when `t` starts
/// with the unit's byte and the rest of `s` stands for the rest of `t`.
pub proof fn lemma_unescape_step(s: Seq<u8>, t: Seq<u8>, b: u8, width: nat)
    requires
        first_unit(s) == Some((b, width)),
    ensures
        unescape(s) == Some(t) <==> {
            &&& t.len() > 0
            &&& t[0] == b
            &&& unescape(s.skip(width as int)) == Some(t.skip(1))
        },
{
    match unescape(s.skip(width as int)) {
        None => {},
        Some(rest) => {
            assert((seq![b] + rest).skip(1) =~= rest);
            if t.len() > 0 && t[0] == b && rest == t.skip(1) {
                assert(seq![b] + rest =~= t);
            }
        },
    }
}

/// The lower-case hexadecimal digit for a value below 16.
pub open spec fn hex_digit_of(v: u8) -> u8 {
    if v < 10 {
        (0x30 + v) as u8
    } else {
        (0x61 + v - 10) as u8
    }
}

/// How a JSON writer writes one byte of a string: the short escape where
/// there is one, `\u00XX` for any other control character, and the byte
/// itself otherwise.
pub open spec fn escaped_unit(b: u8) -> Seq<u8> {
    if b == 0x22 {
        seq![BACKSLASH, 0x22u8]
    } else if b == 0x5c {
        seq![BACKSLASH, 0x5cu8]
    } else if b == 0x08 {
        seq![BACKSLASH, 0x62u8]
    } else if b == 0x0c {
        seq![BACKSLASH, 0x66u8]
    } else if b == 0x0a {
        seq![BACKSLASH, 0x6eu8]
    } else if b == 0x0d {
        seq![BACKSLASH, 0x72u8]
    } else if b == 0x09 {
        seq![BACKSLASH, 0x74u8]
    } else if b < 0x20 {
        seq![BACKSLASH, 0x75u8, 0x30u8, 0x30u8, hex_digit_of(b / 16), hex_digit_of(b % 16)]
    } else {
        seq![b]
    }
}

/// The contents of the string literal that such a writer writes for `bytes`.
pub open spec fn escaped(bytes: Seq<u8>) -> Seq<u8>
    decreases bytes.len(),
{
    if bytes.len() == 0 {
        Seq::empty()
    } else {
        escaped_unit(bytes[0]) + escaped(bytes.skip(1))
    }
}

/// The string literal that such a writer writes for `bytes`.
pub open spec fn quoted(bytes: Seq<u8>) -> Seq<u8> {
    seq![QUOTE] + escaped(bytes) + seq![QUOTE]
}

/// What is written for one byte is one unit, and it stands for that byte.
pub proof fn lemma_escaped_unit_is_a_unit(b: u8, rest: Seq<u8>)
    ensures
        first_unit(escaped_unit(b) + rest) == Some((b, escaped_unit(b).len())),
        (escaped_unit(b) + rest).skip(escaped_unit(b).len() as int) == rest,
{
    let unit = escaped_unit(b);
    let s = unit + rest;
    assert(s.skip(unit.len() as int) =~= rest);
    assert(s[0] == unit[0]);
    if unit.len() >= 2 {
        assert(s[1] == unit[1]);
    }
    if unit.len() == 6 {
        assert(s[2] == unit[2] && s[3] == unit[3] && s[4] == unit[4] && s[5] == unit[5]);
        assert(hex_value(hex_digit_of(b / 16)) == Some((b / 16) as u8));
        assert(hex_value(hex_digit_of(b % 16)) == Some((b % 16) as u8));
        assert((b / 16) * 16 + b % 16 == b);
    }
}

/// The reader undoes the writer: what is written for `bytes` stands for
/// `bytes`, whatever the bytes are.
pub proof fn lemma_escaped_reads_back(bytes: Seq<u8>)
    ensures
        unescape(escaped(bytes)) == Some(bytes),
    decreases bytes.len(),
{
    if bytes.len() > 0 {
        let unit = escaped_unit(bytes[0]);
        let rest = escaped(bytes.skip(1));
        lemma_escaped_unit_is_a_unit(bytes[0], rest);
        lemma_escaped_reads_back(bytes.skip(1));
        assert(seq![bytes[0]] + bytes.skip(1) =~= bytes);
    }
}

/// The literal written for `bytes` is accepted, and stands for `bytes`.
pub proof fn lemma_quoted_reads_back(bytes: Seq<u8>)
    ensures
        unquote(quoted(bytes)) == Some(bytes),
{
    let literal = quoted(bytes);
    assert(literal.subrange(1, literal.len() - 1) =~= escaped(bytes));
    lemma_escaped_reads_back(bytes);
}

/// The value of the hexadecimal digit `c`.
fn hex_digit(c: u8) -> (v: Option<u8>)
    ensures
        v == hex_value(c),
{
    if 0x30 <= c && c <= 0x39 {
        Some(c - 0x30)
    } else if 0x61 <= c && c <= 0x66 {
        Some(c - 0x61 + 10)
    } else if 0x41 <= c && c <= 0x46 {
        Some(c - 0x41 + 10)
    } else {
        None
    }
}

/// The byte that the escape `\c` stands for.
fn short_escape_byte(c: u8) -> (v: Option<u8>)
    ensures
        v == short_escape(c),
{
    if c == 0x22 {
        Some(0x22)
    } else if c == 0x5c {
        Some(0x5c)
    } else if c == 0x2f {
        Some(0x2f)
    } else if c == 0x62 {
        Some(0x08)
    } else if c == 0x66 {
        Some(0x0c)
    } else if c == 0x6e {
        Some(0x0a)
    } else if c == 0x72 {
        Some(0x0d)
    } else if c == 0x74 {
        Some(0x09)
    } else {
        None
    }
}

/// Reads the unit that starts at `at`, within `bytes[..end]`.
fn read_unit(bytes: &[u8], at: usize, end: usize) -> (unit: Option<(u8, usize)>)
    requires
        at < end <= bytes@.len(),
    ensures
        match unit {
            Some((b, width)) => first_unit(bytes@.subrange(at as int, end as int)) == Some(
                (b, width as nat),
            ) && at + width <= end,
            None => first_unit(bytes@.subrange(at as int, end as int)) is None,
        },
{
    let ghost s = bytes@.subrange(at as int, end as int);
    let c: u8 = bytes[at];
    assert(s[0] == c);
    if c == BACKSLASH {
        if end - at < 2 {
            return None;
        }
        let e: u8 = bytes[at + 1];
        assert(s[1] == e);
        if e == 0x75 {
            if end - at < 6 {
                return None;
            }
            assert(s[2] == bytes@[at + 2] && s[3] == bytes@[at + 3] && s[4] == bytes@[at + 4]
                && s[5] == bytes@[at + 5]);
            if bytes[at + 2] != 0x30 || bytes[at + 3] != 0x30 {
                return None;
            }
            match (hex_digit(bytes[at + 4]), hex_digit(bytes[at + 5])) {
                (Some(high), Some(low)) => {
                    if high < 8 {
                        Some((high * 16 + low, 6))
                    } else {
                        None
                    }
                },
                _ => None,
            }
        } else {
            match short_escape_byte(e) {
                Some(b) => Some((b, 2)),
                None => None,
            }
        }
    } else if c == QUOTE || c < 0x20 {
        None
    } else {
        Some((c, 1))
    }
}

/// Whether the string literal `literal` stands for exactly the bytes `text`.
pub fn stands_for(literal: &[u8], text: &[u8]) -> (same: bool)
    ensures
        same == (unquote(literal@) == Some(text@)),
{
    let n: usize = literal.len();
    if n < 2 || literal[0] != QUOTE || literal[n - 1] != QUOTE {
        return false;
    }
    let end: usize = n - 1;
    let ghost inner = literal@.subrange(1, end as int);
    let mut i: usize = 1;
    let mut j: usize = 0;
    assert(inner.skip(0) =~= inner);
    assert(text@.skip(0) =~= text@);
    while i < end
        invariant
            1 <= i <= end,
            end == literal@.len() - 1,
            j <= text@.len(),
            inner == literal@.subrange(1, end as int),
            (unescape(inner) == Some(text@)) == (unescape(inner.skip(i - 1)) == Some(
                text@.skip(j as int),
            )),
        decreases end - i,
    {
        let ghost rest = inner.skip(i - 1);
        assert(rest =~= literal@.subrange(i as int, end as int));
        match read_unit(literal, i, end) {
            None => {
                return false;
            },
            Some((b, width)) => {
                proof {
                    lemma_unescape_step(rest, text@.skip(j as int), b, width as nat);
                    assert(rest.skip(width as int) =~= inner.skip(i + width - 1));
                }
                if j >= text.len() || text[j] != b {
                    return false;
                }
                assert(text@.skip(j as int).skip(1) =~= text@.skip(j + 1));
                i = i + width;
                j = j + 1;
            },
        }
    }
    proof {
        assert(inner.skip(i - 1) =~= Seq::<u8>::empty());
        assert(unescape(inner.skip(i - 1)) == Some(Seq::<u8>::empty()));
        if j == text@.len() {
            assert(text@.skip(j as int) =~= Seq::<u8>::empty());
        } else {
            assert(text@.skip(j as int).len() > 0);
        }
        assert(unquote(literal@) == unescape(inner));
    }
    j == text.len()
}

} // verus!
