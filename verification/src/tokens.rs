//! The key of a string as typed tokens: texts, integers written in decimal,
//! and reals (which are printed as doubles outside the library).
use vstd::prelude::*;
use crate::api::natsort_key_of;
use crate::decimal::{
    RealNum, RealV, all_digits, canonical_digits, digits_value, lemma_digits_value_lower,
    lemma_pow10_positive, pow10,
};
use crate::key::{Part, PartV};
use crate::ns::Ns;
use crate::text::{chars_of, string_from_chars};
use crate::unicode::UnicodeTables;

verus! {

/// The character of a decimal digit.
pub open spec fn digit_char(d: nat) -> char {
    ((d + 0x30) as u32) as char
}

/// `n` written in decimal, without leading zeros.
pub open spec fn nat_text(n: nat) -> Seq<char>
    decreases n,
{
    if n < 10 {
        seq![digit_char(n)]
    } else {
        nat_text(n / 10).push(digit_char(n % 10))
    }
}

/// The integer `r` written in decimal, with a minus sign when it is below
/// zero (integer chunks have no negative scale; one would be ignored).
pub open spec fn int_text(r: RealV) -> Seq<char> {
    let v = r.mant * pow10(if r.scale >= 0 { r.scale as nat } else { 0 });
    if r.neg && v != 0 { seq!['-'] + nat_text(v) } else { nat_text(v) }
}

/// A token of a key, as a value.
pub enum TokenV {
    Text(Seq<char>),
    Int(Seq<char>),
    Real(RealV),
}

/// A token of a key: a text, an integer in decimal, or a real.
pub enum Token {
    Text(String),
    Int(String),
    Real(RealNum),
}

impl View for Token {
    type V = TokenV;

    open spec fn view(&self) -> TokenV {
        match self {
            Token::Text(t) => TokenV::Text(t@),
            Token::Int(t) => TokenV::Int(t@),
            Token::Real(r) => TokenV::Real(r@),
        }
    }
}

/// The token of a key element.
pub open spec fn token_of(p: PartV) -> TokenV {
    match p {
        PartV::Text(t) => TokenV::Text(t),
        PartV::Int(r) => TokenV::Int(int_text(r)),
        PartV::Real(r) => TokenV::Real(r),
    }
}

pub open spec fn tokens_view(ts: Seq<Token>) -> Seq<TokenV> {
    ts.map_values(|t: Token| t@)
}

/// The digits `d` as characters.
pub open spec fn digit_chars(d: Seq<u8>) -> Seq<char> {
    d.map_values(|x: u8| digit_char(x as nat))
}

proof fn lemma_nat_text_digits(d: Seq<u8>)
    requires
        d.len() > 0,
        all_digits(d),
        d[0] != 0,
    ensures
        nat_text(digits_value(d)) == digit_chars(d),
    decreases d.len(),
{
    if d.len() == 1 {
        assert(d.drop_last() =~= Seq::<u8>::empty());
        assert(digits_value(Seq::<u8>::empty()) == 0);
        assert(d.last() == d[0]);
        assert(digits_value(d) == digits_value(d.drop_last()) * 10 + d.last() as nat);
        assert(digits_value(d) == d[0] as nat);
        assert(digit_chars(d) =~= seq![digit_char(d[0] as nat)]);
    } else {
        let dl = d.drop_last();
        assert(dl[0] == d[0]);
        assert(all_digits(dl));
        lemma_nat_text_digits(dl);
        lemma_digits_value_lower(dl);
        lemma_pow10_positive((dl.len() - 1) as nat);
        let v = digits_value(d);
        assert(v == digits_value(dl) * 10 + d.last() as nat);
        assert(d.last() < 10);
        assert(v >= 10);
        assert(v / 10 == digits_value(dl));
        assert(v % 10 == d.last() as nat);
        assert(digit_chars(d) =~= digit_chars(dl).push(digit_char(d.last() as nat)));
    }
}

proof fn lemma_nat_text_zeros(n: nat, k: nat)
    requires
        n >= 1,
    ensures
        nat_text(n * pow10(k)) == nat_text(n) + Seq::new(k, |i: int| '0'),
    decreases k,
{
    if k == 0 {
        assert(pow10(0) == 1);
        assert(n * pow10(0) == n);
        assert(nat_text(n) + Seq::new(0, |i: int| '0') =~= nat_text(n));
    } else {
        lemma_nat_text_zeros(n, (k - 1) as nat);
        lemma_pow10_positive((k - 1) as nat);
        let m = n * pow10((k - 1) as nat);
        assert(m >= 1) by (nonlinear_arith)
            requires
                n >= 1,
                pow10((k - 1) as nat) >= 1,
                m == n * pow10((k - 1) as nat),
        ;
        assert(n * pow10(k) == m * 10) by (nonlinear_arith)
            requires
                pow10(k) == 10 * pow10((k - 1) as nat),
                m == n * pow10((k - 1) as nat),
        ;
        assert((m * 10) / 10 == m);
        assert((m * 10) % 10 == 0);
        assert(digit_char(0) == '0');
        assert(nat_text(n) + Seq::new(k, |i: int| '0') =~= (nat_text(n) + Seq::new((k - 1) as nat, |i: int| '0')).push('0'));
    }
}

/// The integer `r` written in decimal.
pub fn int_string(r: &RealNum) -> (s: String)
    ensures
        s@ == int_text(r@),
{
    let d = r.mantissa_digits();
    let scale = r.scale();
    let mut out: Vec<char> = Vec::new();
    if d.len() == 0 {
        out.push('0');
        proof {
            assert(r@.mant == 0);
            assert(0 * pow10(if r@.scale >= 0 { r@.scale as nat } else { 0 }) == 0);
            assert(out@ =~= nat_text(0));
        }
        return string_from_chars(&out);
    }
    if r.is_negative() {
        out.push('-');
    }
    let ghost start = out@;
    let mut i: usize = 0;
    while i < d.len()
        invariant
            i <= d.len(),
            all_digits(d@),
            out@ == start + digit_chars(d@.take(i as int)),
        decreases d.len() - i,
    {
        let c = ((d[i] as u32 + 0x30) as u8) as char;
        proof {
            assert(d@[i as int] < 10);
            assert(c == digit_char(d@[i as int] as nat));
            assert(digit_chars(d@.take(i + 1)) =~= digit_chars(d@.take(i as int)).push(c));
        }
        out.push(c);
        i = i + 1;
    }
    assert(d@.take(d.len() as int) =~= d@);
    let ghost mid = out@;
    let mut z: i128 = 0;
    while z < scale
        invariant
            0 <= z,
            z <= scale || z == 0,
            out@ == mid + Seq::new(z as nat, |j: int| '0'),
        decreases scale - z,
    {
        out.push('0');
        z = z + 1;
        assert(out@ =~= mid + Seq::new(z as nat, |j: int| '0'));
    }
    proof {
        let k: nat = if r@.scale >= 0 { r@.scale as nat } else { 0 };
        assert(z as nat == k);
        assert(canonical_digits(d@));
        lemma_nat_text_digits(d@);
        lemma_digits_value_lower(d@);
        lemma_pow10_positive((d@.len() - 1) as nat);
        lemma_nat_text_zeros(r@.mant, k);
        lemma_pow10_positive(k);
        assert(r@.mant * pow10(k) != 0) by (nonlinear_arith)
            requires
                r@.mant >= 1,
                pow10(k) >= 1,
        ;
        if r@.neg {
            assert(out@ =~= seq!['-'] + (digit_chars(d@) + Seq::new(k, |j: int| '0')));
        } else {
            assert(out@ =~= digit_chars(d@) + Seq::new(k, |j: int| '0'));
        }
    }
    string_from_chars(&out)
}

/// The key of `s` under `alg` as typed tokens.
pub fn key_tokens(s: &str, alg: Ns) -> (r: Vec<Token>)
    ensures
        tokens_view(r@) == natsort_key_of(s@, alg).map_values(|p: PartV| token_of(p)),
{
    let t = UnicodeTables::new();
    let parts = crate::api::parts_of(&t, s, alg);
    let ghost pv = crate::key::parts_view(parts@);
    let mut out: Vec<Token> = Vec::new();
    let mut i: usize = 0;
    while i < parts.len()
        invariant
            i <= parts.len(),
            pv == crate::key::parts_view(parts@),
            out.len() == i,
            tokens_view(out@) == pv.take(i as int).map_values(|p: PartV| token_of(p)),
        decreases parts.len() - i,
    {
        let tok = match &parts[i] {
            Part::Text(x) => Token::Text(string_from_chars(x)),
            Part::Int(x) => Token::Int(int_string(x)),
            Part::Real(x) => Token::Real(x.clone()),
        };
        assert(tok@ == token_of(pv[i as int]));
        let ghost old_out = out@;
        out.push(tok);
        i = i + 1;
        assert forall|j: int| 0 <= j < i implies #[trigger] tokens_view(out@)[j] == pv.take(i as int).map_values(|p: PartV| token_of(p))[j] by {
            if j < i - 1 {
                assert(out@[j] == old_out[j]);
                assert(tokens_view(old_out)[j] == pv.take(i - 1).map_values(|p: PartV| token_of(p))[j]);
            }
        }
        assert(tokens_view(out@) =~= pv.take(i as int).map_values(|p: PartV| token_of(p)));
    }
    assert(pv.take(parts.len() as int) =~= pv);
    out
}

/// What a token prints as: `T:` and its text, `I:` and its digits, or `R:`
/// and `real_text`, the printed form of its real.
pub open spec fn token_piece(t: TokenV, real_text: Seq<char>) -> Seq<char> {
    match t {
        TokenV::Text(x) => seq!['T', ':'] + x,
        TokenV::Int(n) => seq!['I', ':'] + n,
        TokenV::Real(_) => seq!['R', ':'] + real_text,
    }
}

/// The pieces joined by tabs.
pub open spec fn tab_joined(pieces: Seq<Seq<char>>) -> Seq<char>
    decreases pieces.len(),
{
    if pieces.len() == 0 {
        Seq::empty()
    } else if pieces.len() == 1 {
        pieces[0]
    } else {
        tab_joined(pieces.drop_last()) + seq!['\t'] + pieces.last()
    }
}

/// The printed pieces of `tokens`, the reals printed as `real_texts`.
pub open spec fn token_pieces(tokens: Seq<TokenV>, real_texts: Seq<Seq<char>>) -> Seq<Seq<char>> {
    Seq::new(tokens.len(), |k: int| token_piece(tokens[k], real_texts[k]))
}

/// The printed piece of one token.
fn piece_of(t: &Token, real_text: &String) -> (r: Vec<char>)
    ensures
        r@ == token_piece(t@, real_text@),
{
    let (tag, body): (char, &str) = match t {
        Token::Text(x) => ('T', x.as_str()),
        Token::Int(n) => ('I', n.as_str()),
        Token::Real(_) => ('R', real_text.as_str()),
    };
    let mut out: Vec<char> = Vec::new();
    out.push(tag);
    out.push(':');
    let mut rest = chars_of(body);
    out.append(&mut rest);
    assert(out@ =~= token_piece(t@, real_text@));
    out
}

/// The tokens printed as one line: each piece (`T:text`, `I:digits`, or
/// `R:` and the printed real given for that position), separated by tabs.
pub fn key_line(tokens: &Vec<Token>, real_texts: &Vec<String>) -> (r: String)
    requires
        real_texts.len() == tokens.len(),
    ensures
        r@ == tab_joined(token_pieces(tokens_view(tokens@), real_texts@.map_values(|x: String| x@))),
{
    let ghost pieces = token_pieces(tokens_view(tokens@), real_texts@.map_values(|x: String| x@));
    let mut out: Vec<char> = Vec::new();
    let mut k: usize = 0;
    while k < tokens.len()
        invariant
            k <= tokens.len(),
            real_texts.len() == tokens.len(),
            pieces == token_pieces(tokens_view(tokens@), real_texts@.map_values(|x: String| x@)),
            out@ == tab_joined(pieces.take(k as int)),
        decreases tokens.len() - k,
    {
        let mut piece = piece_of(&tokens[k], &real_texts[k]);
        assert(piece@ == pieces[k as int]);
        assert(pieces.take(k + 1).drop_last() =~= pieces.take(k as int));
        assert(pieces.take(k + 1).last() == pieces[k as int]);
        if k > 0 {
            out.push('\t');
        } else {
            assert(pieces.take(1) =~= seq![pieces[0]]);
            assert(out@ =~= Seq::<char>::empty());
        }
        out.append(&mut piece);
        k = k + 1;
    }
    assert(pieces.take(tokens.len() as int) =~= pieces);
    string_from_chars(&out)
}

} // verus!
