//! The algorithm flags that select how numbers are read and text is compared.
use vstd::prelude::*;

verus! {

/// Algorithm-selection flags.
#[derive(Debug, Clone, Copy, PartialEq, Eq, Structural)]
pub struct Ns {
    /// Parse numbers as signed reals (implies `signed` and `float`).
    pub real: bool,
    /// Parse numbers as reals without forcing a sign.
    pub float: bool,
    /// A leading `+`/`-` directly before a digit attaches to the number.
    pub signed: bool,
    /// Fold text case before comparing.
    pub ignorecase: bool,
    /// Swap the case of each letter.
    pub lowercasefirst: bool,
    /// Expand each letter to its fold followed by itself.
    pub groupletters: bool,
    /// Do not read a trailing `e`/`E` with digits as an exponent.
    pub noexp: bool,
    /// Sort by plain string order first, so ties keep that order.
    pub presort: bool,
}

/// The default algorithm (integers): every flag off.
pub open spec fn default_ns() -> Ns {
    Ns {
        real: false,
        float: false,
        signed: false,
        ignorecase: false,
        lowercasefirst: false,
        groupletters: false,
        noexp: false,
        presort: false,
    }
}

/// Signed reals: the real, float and signed flags on.
pub open spec fn real_ns() -> Ns {
    Ns { real: true, signed: true, float: true, ..default_ns() }
}

impl Default for Ns {
    fn default() -> (r: Ns)
        ensures
            r == default_ns(),
    {
        Ns {
            real: false,
            float: false,
            signed: false,
            ignorecase: false,
            lowercasefirst: false,
            groupletters: false,
            noexp: false,
            presort: false,
        }
    }
}

impl Ns {
    /// `ns.REAL`: signed reals.
    pub fn real_flags() -> (r: Ns)
        ensures
            r == real_ns(),
    {
        Ns { real: true, signed: true, float: true, ..Ns::default() }
    }

    pub open spec fn spec_numbers_are_float(&self) -> bool {
        self.real || self.float
    }

    pub open spec fn spec_sign_attaches(&self) -> bool {
        self.signed || self.real
    }

    /// Whether numbers are read as reals.
    #[verifier::when_used_as_spec(spec_numbers_are_float)]
    pub fn numbers_are_float(&self) -> (r: bool)
        ensures
            r == self.spec_numbers_are_float(),
    {
        self.real || self.float
    }

    /// Whether a leading sign attaches to a following number.
    #[verifier::when_used_as_spec(spec_sign_attaches)]
    pub fn sign_attaches(&self) -> (r: bool)
        ensures
            r == self.spec_sign_attaches(),
    {
        self.signed || self.real
    }
}

} // verus!
