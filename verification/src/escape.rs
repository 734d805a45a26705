//! Escaping a text so that it can stand as a name or a value in a query.
//!
//! A query is parted by `&` and `=`, and `url` itself escapes blanks,
//! controls, quotes, angle brackets, `#` and whatever is not ASCII as it
//! attaches a query. A name or a value is escaped here where it holds one of
//! these, a `+` or a `%`, and in nothing else: a timestamp keeps its colons.

use vstd::prelude::*;
use vstd::utf8::encode_utf8;

verus! {

/// Whether a byte stands for itself in a name or a value: a printable ASCII
/// character other than blank, `"`, `#`, `%`, `&`, `'`, `+`, `<`, `=`, `>`.
pub open spec fn stands_for_itself(b: u8) -> bool {
    &&& 0x21 <= b <= 0x7e
    &&& b != 0x22
    &&& b != 0x23
    &&& b != 0x25
    &&& b != 0x26
    &&& b != 0x27
    &&& b != 0x2b
    &&& b != 0x3c
    &&& b != 0x3d
    &&& b != 0x3e
}

/// The upper-case hexadecimal digit for a number from 0 to 15.
pub open spec fn hex_char(n: int) -> char {
    if n < 10 {
        ((n + 0x30) as u8) as char
    } else {
        ((n + 0x37) as u8) as char
    }
}

/// A byte as it is written in a query: itself where it stands for itself,
/// else `%` and its two hexadecimal digits.
pub open spec fn escaped_byte(b: u8) -> Seq<char> {
    if stands_for_itself(b) {
        seq![b as char]
    } else {
        seq!['%', hex_char(b as int / 16), hex_char(b as int % 16)]
    }
}

/// Bytes as they are written in a query, one after the other.
pub open spec fn escaped_bytes(bytes: Seq<u8>) -> Seq<char>
    decreases bytes.len(),
{
    if bytes.len() == 0 {
        Seq::empty()
    } else {
        escaped_bytes(bytes.drop_last()) + escaped_byte(bytes.last())
    }
}

/// A text as it is written in a query: the bytes of its UTF-8 form, each
/// escaped unless it stands for itself.
pub open spec fn escaped(text: Seq<char>) -> Seq<char> {
    escaped_bytes(encode_utf8(text))
}

/// Whether a character can stand in an escaped text: a printable ASCII
/// character other than blank, `"`, `#`, `&`, `'`, `+`, `<`, `=`, `>`. The
/// `%` is among them: it begins an escape.
pub open spec fn is_plain(c: char) -> bool {
    &&& '!' <= c <= '~'
    &&& c != '"'
    &&& c != '#'
    &&& c != '&'
    &&& c != '\''
    &&& c != '+'
    &&& c != '<'
    &&& c != '='
    &&& c != '>'
}

/// An escaped text holds plain characters only. So it holds none of the
/// marks that part a query or change how it is read: no `&`, no `=`, no `+`,
/// no `#` and no blank.
pub proof fn lemma_escaped_is_plain(text: Seq<char>)
    ensures
        forall|i: int| 0 <= i < escaped(text).len() ==> is_plain(#[trigger] escaped(text)[i]),
        !escaped(text).contains('&'),
        !escaped(text).contains('='),
        !escaped(text).contains('+'),
        !escaped(text).contains('#'),
        !escaped(text).contains(' '),
{
    lemma_escaped_bytes_are_plain(encode_utf8(text));
}

/// Escaped bytes are plain characters only.
pub proof fn lemma_escaped_bytes_are_plain(bytes: Seq<u8>)
    ensures
        forall|i: int|
            0 <= i < escaped_bytes(bytes).len() ==> is_plain(#[trigger] escaped_bytes(bytes)[i]),
    decreases bytes.len(),
{
    if bytes.len() > 0 {
        lemma_escaped_bytes_are_plain(bytes.drop_last());
        let front = escaped_bytes(bytes.drop_last());
        let b = bytes.last();
        let piece = escaped_byte(b);
        assert forall|i: int| 0 <= i < piece.len() implies is_plain(#[trigger] piece[i]) by {
            if !stands_for_itself(b) {
                assert(is_plain(hex_char(b as int / 16)));
                assert(is_plain(hex_char(b as int % 16)));
            }
        }
        assert forall|i: int| 0 <= i < escaped_bytes(bytes).len() implies is_plain(
            #[trigger] escaped_bytes(bytes)[i],
        ) by {
            if i < front.len() {
                assert(escaped_bytes(bytes)[i] == front[i]);
            } else {
                assert(escaped_bytes(bytes)[i] == piece[i - front.len()]);
            }
        }
    }
}

/// A text that holds nothing to escape is written as it is.
pub proof fn lemma_escaped_bytes_unchanged(bytes: Seq<u8>)
    requires
        forall|i: int| 0 <= i < bytes.len() ==> stands_for_itself(#[trigger] bytes[i]),
    ensures
        escaped_bytes(bytes) == bytes.map_values(|b: u8| b as char),
    decreases bytes.len(),
{
    if bytes.len() > 0 {
        lemma_escaped_bytes_unchanged(bytes.drop_last());
        assert(escaped_bytes(bytes) =~= bytes.map_values(|b: u8| b as char));
    } else {
        assert(escaped_bytes(bytes) =~= bytes.map_values(|b: u8| b as char));
    }
}

/// A text that holds plain characters only and no `%` is written as it is.
pub proof fn lemma_escaped_unchanged(text: Seq<char>)
    requires
        forall|i: int| 0 <= i < text.len() ==> is_plain(#[trigger] text[i]) && text[i] != '%',
    ensures
        escaped(text) == text,
{
    assert(vstd::utf8::is_ascii_chars(text));
    vstd::utf8::is_ascii_chars_encode_utf8(text);
    let bytes = encode_utf8(text);
    assert forall|i: int| 0 <= i < bytes.len() implies stands_for_itself(#[trigger] bytes[i]) by {
        assert(is_plain(text[i]));
        assert(text[i] as u8 == bytes[i]);
    }
    lemma_escaped_bytes_unchanged(bytes);
    assert(bytes.map_values(|b: u8| b as char) =~= text) by {
        assert forall|i: int| 0 <= i < text.len() implies bytes.map_values(|b: u8| b as char)[i]
            == text[i] by {
            assert(is_plain(text[i]));
            assert(text[i] as u8 == bytes[i]);
        }
    }
}

/// The text of one printable ASCII character other than the blank.
fn ascii(b: u8) -> (r: &'static str)
    requires
        0x21 <= b <= 0x7e,
    ensures
        r@ == seq![b as char],
{
    let table =
        "!\"#$%&'()*+,-./0123456789:;<=>?@ABCDEFGHIJKLMNOPQRSTUVWXYZ[\\]^_`abcdefghijklmnopqrstuvwxyz{|}~";
    proof {
        reveal_strlit(
            "!\"#$%&'()*+,-./0123456789:;<=>?@ABCDEFGHIJKLMNOPQRSTUVWXYZ[\\]^_`abcdefghijklmnopqrstuvwxyz{|}~",
        );
    }
    let k: usize = (b - 0x21) as usize;
    assert(table@[k as int] == b as char);
    let r = table.substring_ascii(k, k + 1);
    assert(r@ =~= seq![b as char]);
    r
}

fn stands(b: u8) -> (r: bool)
    ensures
        r == stands_for_itself(b),
{
    0x21 <= b && b <= 0x7e && b != 0x22 && b != 0x23 && b != 0x25 && b != 0x26 && b != 0x27 && b
        != 0x2b && b != 0x3c && b != 0x3d && b != 0x3e
}

fn hex(n: u8) -> (r: &'static str)
    requires
        n < 16,
    ensures
        r@ == seq![hex_char(n as int)],
{
    if n < 10 {
        ascii(n + 0x30)
    } else {
        ascii(n + 0x37)
    }
}

/// Escapes a text for a query. Every byte of its UTF-8 form that does not
/// stand for itself is written as `%` and two hexadecimal digits: a blank,
/// a control, a byte beyond ASCII, and each of `"`, `#`, `%`, `&`, `'`, `+`,
/// `<`, `=`, `>`. Every other byte is written as it is.
pub fn escape(text: &str) -> (r: String)
    ensures
        r@ == escaped(text@),
{
    let bytes = text.as_bytes();
    let mut out = String::new();
    let mut i: usize = 0;
    while i < bytes.len()
        invariant
            i <= bytes.len(),
            bytes@ == encode_utf8(text@),
            out@ == escaped_bytes(bytes@.take(i as int)),
        decreases bytes.len() - i,
    {
        proof {
            assert(bytes@.take(i + 1).drop_last() =~= bytes@.take(i as int));
        }
        let b = bytes[i];
        if stands(b) {
            out.append(ascii(b));
        } else {
            out.append("%");
            out.append(hex(b / 16));
            out.append(hex(b % 16));
            proof {
                reveal_strlit("%");
                assert("%"@ + seq![hex_char(b as int / 16)] + seq![hex_char(b as int % 16)]
                    =~= escaped_byte(b));
            }
        }
        i += 1;
    }
    proof {
        assert(bytes@.take(bytes.len() as int) =~= bytes@);
    }
    out
}

} // verus!
