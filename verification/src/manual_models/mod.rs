//! Hand-written models of the trading protocol.

use vstd::prelude::*;

pub mod error_code;
pub mod historic_data_mark;

verus! {

/// The width of the interval that one historical data point covers.
#[derive(Clone, Copy, Debug, Eq, PartialEq, Structural, Ord, PartialOrd, Hash)]
pub enum Resolution {
    Variant1m,
    Variant5m,
    Variant15m,
    Variant30m,
    Variant1h,
    Variant1d,
    Variant1w,
}

impl Resolution {
    /// The resolution as the protocol writes it.
    pub open spec fn spec_name(self) -> Seq<char> {
        match self {
            Resolution::Variant1m => "1m"@,
            Resolution::Variant5m => "5m"@,
            Resolution::Variant15m => "15m"@,
            Resolution::Variant30m => "30m"@,
            Resolution::Variant1h => "1h"@,
            Resolution::Variant1d => "1d"@,
            Resolution::Variant1w => "1w"@,
        }
    }

    /// The resolution as the protocol writes it.
    pub fn name(&self) -> (text: &'static str)
        ensures
            text@ == self.spec_name(),
    {
        match self {
            Resolution::Variant1m => "1m",
            Resolution::Variant5m => "5m",
            Resolution::Variant15m => "15m",
            Resolution::Variant30m => "30m",
            Resolution::Variant1h => "1h",
            Resolution::Variant1d => "1d",
            Resolution::Variant1w => "1w",
        }
    }
}

impl Default for Resolution {
    fn default() -> (resolution: Resolution)
        ensures
            resolution == Resolution::Variant1m,
    {
        Resolution::Variant1m
    }
}

} // verus!
