//! Text handling: the character case mappings and normalization that the
//! standard library and `unicode-normalization` provide, and the case
//! transforms of the algorithm flags.
use vstd::prelude::*;
use unicode_normalization::UnicodeNormalization;
use crate::ns::Ns;
use crate::unicode::{UnicodeTables, casefold_special, special_fold};

verus! {

/// What `char::to_lowercase` yields for `c` (Unicode lowercase mapping).
pub uninterp spec fn lowercase_of(c: char) -> Seq<char>;

/// What `char::to_uppercase` yields for `c` (Unicode uppercase mapping).
pub uninterp spec fn uppercase_of(c: char) -> Seq<char>;

/// What `char::is_uppercase` returns for `c`.
pub uninterp spec fn is_upper(c: char) -> bool;

/// What `char::is_lowercase` returns for `c`.
pub uninterp spec fn is_lower(c: char) -> bool;

/// The canonical decomposition (Unicode Normalization Form D) of `s`, as
/// `unicode_normalization`'s `nfd` yields it.
pub uninterp spec fn nfd(s: Seq<char>) -> Seq<char>;

/// Every character of `s` is ASCII.
pub open spec fn all_ascii(s: Seq<char>) -> bool {
    forall|i: int| 0 <= i < s.len() ==> (#[trigger] s[i] as u32) < 0x80
}

pub open spec fn is_ascii_upper(c: char) -> bool {
    'A' <= c && c <= 'Z'
}

pub open spec fn is_ascii_lower(c: char) -> bool {
    'a' <= c && c <= 'z'
}

/// `char::to_lowercase`, collected.
/// Claims: the result is a function of `c` of one or more characters; an
/// ASCII capital maps to its small letter and any other ASCII character to
/// itself.
#[verifier::external_body]
pub(crate) fn char_to_lowercase(c: char) -> (r: Vec<char>)
    ensures
        r@ == lowercase_of(c),
        r@.len() >= 1,
        (c as u32) < 0x80 ==> r@ == seq![if is_ascii_upper(c) { ((c as u32) + 32) as char } else { c }],
{
    c.to_lowercase().collect()
}

/// `char::to_uppercase`, collected.
/// Claims: the result is a function of `c` of one or more characters; an
/// ASCII small letter maps to its capital and any other ASCII character to
/// itself.
#[verifier::external_body]
pub(crate) fn char_to_uppercase(c: char) -> (r: Vec<char>)
    ensures
        r@ == uppercase_of(c),
        r@.len() >= 1,
        (c as u32) < 0x80 ==> r@ == seq![if is_ascii_lower(c) { ((c as u32) - 32) as char } else { c }],
{
    c.to_uppercase().collect()
}

/// `char::is_uppercase`.
/// Claims: the result is a function of `c`; on ASCII it holds exactly of `A`..`Z`.
#[verifier::external_body]
pub(crate) fn char_is_uppercase(c: char) -> (r: bool)
    ensures
        r == is_upper(c),
        (c as u32) < 0x80 ==> (r <==> is_ascii_upper(c)),
{
    c.is_uppercase()
}

/// `char::is_lowercase`.
/// Claims: the result is a function of `c`; on ASCII it holds exactly of `a`..`z`.
#[verifier::external_body]
pub(crate) fn char_is_lowercase(c: char) -> (r: bool)
    ensures
        r == is_lower(c),
        (c as u32) < 0x80 ==> (r <==> is_ascii_lower(c)),
{
    c.is_lowercase()
}

/// `UnicodeNormalization::nfd` of `unicode-normalization`, collected.
/// Claims: the result is a function of the characters of `s`, and a text of
/// ASCII characters only (the empty text among them) is left as it is, since
/// ASCII characters neither decompose nor reorder.
#[verifier::external_body]
pub(crate) fn nfd_chars(s: &str) -> (r: Vec<char>)
    ensures
        r@ == nfd(s@),
        all_ascii(s@) ==> r@ == s@,
{
    s.nfd().collect()
}

/// `String::push`.
#[verifier::external_body]
pub(crate) fn push_char(s: &mut String, c: char)
    ensures
        final(s)@ == old(s)@.push(c),
{
    s.push(c)
}

/// A `String` holding the characters `v`.
pub fn string_from_chars(v: &Vec<char>) -> (r: String)
    ensures
        r@ == v@,
{
    let mut s = String::new();
    let mut i: usize = 0;
    while i < v.len()
        invariant
            i <= v.len(),
            s@ == v@.take(i as int),
        decreases v.len() - i,
    {
        push_char(&mut s, v[i]);
        i = i + 1;
        assert(s@ =~= v@.take(i as int));
    }
    assert(v@.take(v.len() as int) =~= v@);
    s
}

/// The characters of `s`.
pub fn chars_of(s: &str) -> (r: Vec<char>)
    ensures
        r@ == s@,
{
    let mut r: Vec<char> = Vec::new();
    for c in it: s.chars()
        invariant
            r@ == it.seq().take(it.index() as int),
    {
        r.push(c);
    }
    r
}

/// The text as the key reads it: ASCII text as it is (canonical
/// decomposition leaves it unchanged), any other text decomposed.
pub open spec fn normalized(s: Seq<char>) -> Seq<char> {
    if all_ascii(s) { s } else { nfd(s) }
}

/// The lowercase mapping of `c`: by rule on ASCII, else the Unicode one
/// (which holds one or more characters, as each call of `char_to_lowercase`
/// shows; the last branch is never taken).
pub open spec fn to_lower(c: char) -> Seq<char> {
    if (c as u32) < 0x80 {
        seq![if is_ascii_upper(c) { ((c as u32) + 32) as char } else { c }]
    } else if lowercase_of(c).len() >= 1 {
        lowercase_of(c)
    } else {
        seq![c]
    }
}

/// The uppercase mapping of `c`: by rule on ASCII, else the Unicode one
/// (which holds one or more characters; the last branch is never taken).
pub open spec fn to_upper(c: char) -> Seq<char> {
    if (c as u32) < 0x80 {
        seq![if is_ascii_lower(c) { ((c as u32) - 32) as char } else { c }]
    } else if uppercase_of(c).len() >= 1 {
        uppercase_of(c)
    } else {
        seq![c]
    }
}

/// `c` is an uppercase letter.
pub open spec fn upper_case(c: char) -> bool {
    if (c as u32) < 0x80 { is_ascii_upper(c) } else { is_upper(c) }
}

/// `c` is a lowercase letter.
pub open spec fn lower_case(c: char) -> bool {
    if (c as u32) < 0x80 { is_ascii_lower(c) } else { is_lower(c) }
}

/// The full case fold of `c`: its special fold where it has one, else its
/// lowercase mapping.
pub open spec fn fold_of(c: char) -> Seq<char> {
    match special_fold(c) {
        Some(f) => f,
        None => to_lower(c),
    }
}

/// `c` with its case swapped: an uppercase letter lowered, a lowercase
/// letter raised, anything else kept.
pub open spec fn swap_case(c: char) -> Seq<char> {
    if upper_case(c) {
        to_lower(c)
    } else if lower_case(c) {
        to_upper(c)
    } else {
        seq![c]
    }
}

/// Each character of `s` case-folded.
pub open spec fn fold_all(s: Seq<char>) -> Seq<char>
    decreases s.len(),
{
    if s.len() == 0 {
        Seq::empty()
    } else {
        fold_all(s.drop_last()) + fold_of(s.last())
    }
}

/// Each character of `s` preceded by its case fold.
pub open spec fn group_all(s: Seq<char>) -> Seq<char>
    decreases s.len(),
{
    if s.len() == 0 {
        Seq::empty()
    } else {
        group_all(s.drop_last()) + fold_of(s.last()).push(s.last())
    }
}

/// What the case transforms of `alg` make of one character, in this
/// order: the case swap of lowercase-first, then the case fold of
/// ignore-case, then the letter grouping of group-letters.
pub open spec fn transform_char(c: char, alg: Ns) -> Seq<char> {
    let swapped = if alg.lowercasefirst { swap_case(c) } else { seq![c] };
    let folded = if alg.ignorecase { fold_all(swapped) } else { swapped };
    if alg.groupletters { group_all(folded) } else { folded }
}

/// What the case transforms of `alg` make of a run of text: each character
/// transformed, in order.
pub open spec fn transform(s: Seq<char>, alg: Ns) -> Seq<char>
    decreases s.len(),
{
    if s.len() == 0 {
        Seq::empty()
    } else {
        transform(s.drop_last(), alg) + transform_char(s.last(), alg)
    }
}

/// The case fold of `c`.
fn fold_char(t: &UnicodeTables, c: char) -> (r: Vec<char>)
    requires
        t.wf(),
    ensures
        r@ == fold_of(c),
{
    match casefold_special(t, c) {
        Some(f) => f,
        None => char_to_lowercase(c),
    }
}

/// The case swap of `c`.
fn swap_char(c: char) -> (r: Vec<char>)
    ensures
        r@ == swap_case(c),
{
    if char_is_uppercase(c) {
        char_to_lowercase(c)
    } else if char_is_lowercase(c) {
        char_to_uppercase(c)
    } else {
        let mut v = Vec::new();
        v.push(c);
        v
    }
}

/// Each character of `v` case-folded (`grouped` off) or preceded by its case
/// fold (`grouped` on).
fn fold_each(t: &UnicodeTables, v: &Vec<char>, grouped: bool) -> (r: Vec<char>)
    requires
        t.wf(),
    ensures
        grouped ==> r@ == group_all(v@),
        !grouped ==> r@ == fold_all(v@),
{
    let mut out: Vec<char> = Vec::new();
    let mut i: usize = 0;
    while i < v.len()
        invariant
            t.wf(),
            i <= v.len(),
            grouped ==> out@ == group_all(v@.take(i as int)),
            !grouped ==> out@ == fold_all(v@.take(i as int)),
        decreases v.len() - i,
    {
        let c = v[i];
        let mut piece = fold_char(t, c);
        if grouped {
            piece.push(c);
        }
        proof {
            assert(v@.take(i + 1).drop_last() =~= v@.take(i as int));
            assert(v@.take(i + 1).last() == c);
        }
        out.append(&mut piece);
        i = i + 1;
    }
    assert(v@.take(v.len() as int) =~= v@);
    out
}

/// Applies the case transforms of `alg` to a run of text.
pub fn transform_text(t: &UnicodeTables, text: &Vec<char>, alg: Ns) -> (r: Vec<char>)
    requires
        t.wf(),
    ensures
        r@ == transform(text@, alg),
{
    let mut out: Vec<char> = Vec::new();
    let mut i: usize = 0;
    while i < text.len()
        invariant
            t.wf(),
            i <= text.len(),
            out@ == transform(text@.take(i as int), alg),
        decreases text.len() - i,
    {
        let c = text[i];
        let swapped: Vec<char> = if alg.lowercasefirst {
            swap_char(c)
        } else {
            let mut v = Vec::new();
            v.push(c);
            v
        };
        let folded: Vec<char> = if alg.ignorecase {
            fold_each(t, &swapped, false)
        } else {
            swapped
        };
        let mut piece: Vec<char> = if alg.groupletters {
            fold_each(t, &folded, true)
        } else {
            folded
        };
        proof {
            assert(piece@ =~= transform_char(c, alg));
            assert(text@.take(i + 1).drop_last() =~= text@.take(i as int));
            assert(text@.take(i + 1).last() == c);
        }
        out.append(&mut piece);
        i = i + 1;
    }
    assert(text@.take(text.len() as int) =~= text@);
    out
}

} // verus!
