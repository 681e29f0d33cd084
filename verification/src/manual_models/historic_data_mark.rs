//! Models of historical mark price data.

use vstd::prelude::*;

verus! {

/// The kind of instrument that historical mark prices belong to.
#[derive(Clone, Copy, Debug, Eq, PartialEq, Structural, Ord, PartialOrd, Hash)]
pub enum InstrumentType {
    Perpetual,
    Future,
    Combination,
    Option,
}

impl InstrumentType {
    /// The kind as the protocol writes it.
    pub open spec fn spec_name(self) -> Seq<char> {
        match self {
            InstrumentType::Perpetual => "perpetual"@,
            InstrumentType::Future => "future"@,
            InstrumentType::Combination => "combination"@,
            InstrumentType::Option => "option"@,
        }
    }

    /// The kind as the protocol writes it.
    pub fn name(&self) -> (text: &'static str)
        ensures
            text@ == self.spec_name(),
    {
        match self {
            InstrumentType::Perpetual => "perpetual",
            InstrumentType::Future => "future",
            InstrumentType::Combination => "combination",
            InstrumentType::Option => "option",
        }
    }
}

impl Default for InstrumentType {
    fn default() -> (kind: InstrumentType)
        ensures
            kind == InstrumentType::Perpetual,
    {
        InstrumentType::Perpetual
    }
}

} // verus!
