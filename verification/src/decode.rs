//! Decoding bytes to text: as ASCII, or as UTF-8 with replacement of invalid
//! sequences, chosen by an encoding label.
use vstd::prelude::*;
use vstd::utf8::{decode_utf8, valid_utf8};
use crate::text::{chars_of, push_char};

verus! {

/// What `String::from_utf8_lossy` makes of `bytes`.
pub uninterp spec fn utf8_lossy(bytes: Seq<u8>) -> Seq<char>;

/// `String::from_utf8_lossy`, owned.
/// Claims: the result is a function of the bytes; valid UTF-8 decodes to its
/// characters; on invalid input the result holds U+FFFD (where each
/// replacement stands is left unstated).
#[verifier::external_body]
pub(crate) fn utf8_decode_lossy(bytes: &[u8]) -> (r: String)
    ensures
        r@ == utf8_lossy(bytes@),
        valid_utf8(bytes@) ==> r@ == decode_utf8(bytes@),
        !valid_utf8(bytes@) ==> r@.contains('\u{FFFD}'),
{
    String::from_utf8_lossy(bytes).into_owned()
}

/// ASCII lowercase of a character.
pub open spec fn ascii_lower(c: char) -> char {
    if 'A' <= c && c <= 'Z' { ((c as u32) + 32) as char } else { c }
}

/// A byte read as ASCII: itself below 0x80, else U+FFFD.
pub open spec fn ascii_char(b: u8) -> char {
    if b < 0x80 { (b as u32) as char } else { '\u{FFFD}' }
}

/// The bytes read as ASCII.
pub open spec fn ascii_decoded(bytes: Seq<u8>) -> Seq<char> {
    bytes.map_values(|b: u8| ascii_char(b))
}

/// The encoding label names ASCII (compared ignoring ASCII case).
pub open spec fn names_ascii(encoding: Seq<char>) -> bool {
    encoding.map_values(|c: char| ascii_lower(c)) == seq!['a', 's', 'c', 'i', 'i']
}

/// The bytes read as UTF-8: valid UTF-8 as its characters, anything else
/// with replacements.
pub open spec fn utf8_read(bytes: Seq<u8>) -> Seq<char> {
    if valid_utf8(bytes) { decode_utf8(bytes) } else { utf8_lossy(bytes) }
}

/// What the decoder for `encoding` makes of `bytes`: ASCII when the label
/// is "ascii", UTF-8 (lossy) for any other label.
pub open spec fn decoded(encoding: Seq<char>, bytes: Seq<u8>) -> Seq<char> {
    if names_ascii(encoding) { ascii_decoded(bytes) } else { utf8_read(bytes) }
}

fn lower_char(c: char) -> (r: char)
    ensures
        r == ascii_lower(c),
{
    if 'A' <= c && c <= 'Z' {
        let v = (c as u32) + 32;
        assert(0x61 <= v <= 0x7a);
        char_from_ascii(v as u8)
    } else {
        c
    }
}

/// The character of an ASCII byte.
fn char_from_ascii(b: u8) -> (r: char)
    requires
        b < 0x80,
    ensures
        r == (b as u32) as char,
{
    b as char
}

/// Whether the label names ASCII.
fn is_ascii_label(encoding: &str) -> (r: bool)
    ensures
        r == names_ascii(encoding@),
{
    let cs = chars_of(encoding);
    let ghost lowered = encoding@.map_values(|c: char| ascii_lower(c));
    if cs.len() != 5 {
        assert(lowered.len() != seq!['a', 's', 'c', 'i', 'i'].len());
        return false;
    }
    let mut i: usize = 0;
    while i < 5
        invariant
            i <= 5,
            cs@ == encoding@,
            cs.len() == 5,
            lowered == encoding@.map_values(|c: char| ascii_lower(c)),
            forall|j: int| 0 <= j < i ==> lowered[j] == seq!['a', 's', 'c', 'i', 'i'][j],
        decreases 5 - i,
    {
        let w = if i == 0 {
            'a'
        } else if i == 1 {
            's'
        } else if i == 2 {
            'c'
        } else {
            'i'
        };
        assert(w == seq!['a', 's', 'c', 'i', 'i'][i as int]);
        assert(lowered[i as int] == ascii_lower(cs@[i as int]));
        if lower_char(cs[i]) != w {
            assert(lowered[i as int] != seq!['a', 's', 'c', 'i', 'i'][i as int]);
            return false;
        }
        i = i + 1;
    }
    assert(lowered =~= seq!['a', 's', 'c', 'i', 'i']);
    true
}

/// The bytes read as ASCII, non-ASCII bytes becoming U+FFFD.
fn ascii_decode(bytes: &[u8]) -> (r: String)
    ensures
        r@ == ascii_decoded(bytes@),
{
    let mut s = String::new();
    let mut i: usize = 0;
    while i < bytes.len()
        invariant
            i <= bytes.len(),
            s@ == ascii_decoded(bytes@.take(i as int)),
        decreases bytes.len() - i,
    {
        let b = bytes[i];
        let c = if b < 0x80 {
            char_from_ascii(b)
        } else {
            '\u{FFFD}'
        };
        push_char(&mut s, c);
        i = i + 1;
        assert(s@ =~= ascii_decoded(bytes@.take(i as int)));
    }
    assert(bytes@.take(bytes.len() as int) =~= bytes@);
    s
}

/// Decodes `bytes` with the encoding `encoding` names.
pub fn decode(encoding: &str, bytes: &[u8]) -> (r: String)
    ensures
        r@ == decoded(encoding@, bytes@),
        !names_ascii(encoding@) && !valid_utf8(bytes@) ==> r@.contains('\u{FFFD}'),
{
    if is_ascii_label(encoding) {
        ascii_decode(bytes)
    } else {
        utf8_decode_lossy(bytes)
    }
}

/// The decoding function for `encoding`: "ascii" reads ASCII, replacing
/// other bytes; any other label reads UTF-8, replacing invalid sequences.
pub fn decoder(encoding: &str) -> (f: impl Fn(&[u8]) -> String + '_)
    ensures
        forall|b: &[u8]| #[trigger] f.requires((b,)),
        forall|b: &[u8], r: String| #[trigger] f.ensures((b,), r) ==> r@ == decoded(encoding@, b@),
        forall|b: &[u8], r: String| #[trigger] f.ensures((b,), r) && !names_ascii(encoding@)
            && !valid_utf8(b@) ==> r@.contains('\u{FFFD}'),
{
    move |bytes: &[u8]| -> (r: String)
        ensures
            r@ == decoded(encoding@, bytes@),
            !names_ascii(encoding@) && !valid_utf8(bytes@) ==> r@.contains('\u{FFFD}'),
        { decode(encoding, bytes) }
}

/// `bytes` read as ASCII.
pub fn as_ascii(bytes: &[u8]) -> (r: String)
    ensures
        r@ == ascii_decoded(bytes@),
{
    ascii_decode(bytes)
}

/// `bytes` read as UTF-8, invalid sequences replaced.
pub fn as_utf8(bytes: &[u8]) -> (r: String)
    ensures
        r@ == utf8_read(bytes@),
        !valid_utf8(bytes@) ==> r@.contains('\u{FFFD}'),
{
    utf8_decode_lossy(bytes)
}

} // verus!
