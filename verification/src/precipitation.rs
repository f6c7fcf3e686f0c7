//! Precipitation amounts. An amount is a number with a fraction, and the
//! library does no arithmetic on it: it holds an amount as the text that
//! prints it. Whoever reads the provider's answer reads the amount as a
//! number and prints it; what the library decides is what stands for an
//! amount that could not be read.

use vstd::prelude::*;
use vstd::string::StringExecFns;

verus! {

/// An amount of precipitation in millimetres, as the text that prints it.
#[derive(Clone, Debug, PartialEq, Eq)]
pub struct Precipitation {
    pub text: String,
}

impl View for Precipitation {
    type V = Seq<char>;

    open spec fn view(&self) -> Seq<char> {
        self.text@
    }
}

/// No precipitation, as it is printed.
pub open spec fn no_amount() -> Seq<char> {
    "0"@
}

/// An amount that was read, as mathematical values.
pub open spec fn amount_view(read: Option<Precipitation>) -> Option<Seq<char>> {
    match read {
        Some(amount) => Some(amount@),
        None => None,
    }
}

/// The amount that stands for what was read: the amount itself, and no
/// precipitation where none could be read.
pub open spec fn lenient_amount(read: Option<Seq<char>>) -> Seq<char> {
    match read {
        Some(amount) => amount,
        None => no_amount(),
    }
}

impl Precipitation {
    /// The amount that `text` prints.
    pub fn new(text: String) -> (r: Precipitation)
        ensures
            r@ == text@,
    {
        Precipitation { text }
    }

    /// No precipitation.
    pub fn zero() -> (r: Precipitation)
        ensures
            r@ == no_amount(),
    {
        Precipitation { text: String::from_str("0") }
    }

    /// The amount that stands for what was read; no precipitation where
    /// none could be read.
    pub fn or_zero(read: &Option<Precipitation>) -> (r: Precipitation)
        ensures
            r@ == lenient_amount(amount_view(*read)),
    {
        match read {
            Some(amount) => Precipitation { text: amount.text.clone() },
            None => Precipitation::zero(),
        }
    }
}

} // verus!
