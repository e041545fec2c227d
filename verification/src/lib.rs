//! Natural ("human") ordering of strings: a string is split into text and
//! numbers, and numbers compare by value, so `num2` comes before `num10`.
//!
//! The key of a string is its canonical decomposition split into an
//! alternation of text and numbers that starts with a (possibly empty) text.
//! Under the integer algorithms numbers are exact integers. Under the real
//! algorithms they are decimals kept as a double keeps them at the ends of
//! its range (a magnitude too large for a double overflows, and all such
//! values tie, as infinities do; one too small underflows to zero), and
//! exact within the range.
use vstd::prelude::*;

pub mod unicode_data;
pub mod unicode;
pub mod decimal;
pub mod ns;
pub mod text;
pub mod key;
pub mod order;
pub mod sort;
pub mod api;
pub mod compare;
pub mod laws;
pub mod key_laws;
pub mod decode;
pub mod cli;
pub mod chain;
pub mod tokens;

pub use api::{
    Chunk, humansorted, index_humansorted, index_natsorted, index_natsorted_alg,
    index_os_sorted, index_os_sorted_presort, index_realsorted, natsort_key, natsorted,
    natsorted_alg, natsorted_reverse, numeric_regex_chooser, order_by_index, os_sorted,
    os_sorted_presort, realsorted,
};
pub use chain::chain_functions;
pub use cli::{alg_from_spec, alg_from_str, parse_alg, sort_lines};
pub use compare::{compare_to_str, natcmp};
pub use decimal::RealNum;
pub use decode::{as_ascii, as_utf8, decoder};
pub use ns::Ns;
pub use tokens::{key_line, key_tokens, Token};

verus! {
} // verus!
