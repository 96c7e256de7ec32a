//! Currencies, by their code.
use vstd::prelude::*;

verus! {

/// A currency, named by its three-letter ISO code in lower case, as the API writes it.
#[derive(Copy, Clone, Debug, PartialEq, Eq)]
pub struct Currency<'a> {
    pub code: &'a str,
}

impl<'a> View for Currency<'a> {
    type V = Seq<char>;

    open spec fn view(&self) -> Seq<char> {
        self.code@
    }
}

impl<'a> Currency<'a> {
    /// The currency with the given code. The code is taken as it is.
    pub fn new(code: &'a str) -> (r: Currency<'a>)
        ensures
            r.code == code,
    {
        Currency { code }
    }

    /// The code of the currency.
    pub fn as_str(&self) -> (r: &'a str)
        ensures
            r@ == self@,
    {
        self.code
    }
}

} // verus!
