//! The field lists of a transaction, as places where a violation can sit.

use vstd::prelude::*;
use vstd::string::*;

verus! {

/// The list of a transaction's fields in which a violation was found.
#[derive(Clone, Copy, Debug, PartialEq, Eq, Structural)]
pub enum TransactionErrorSource {
    CellDeps,
    HeaderDeps,
    Inputs,
    Outputs,
    OutputsData,
    Witnesses,
}

impl TransactionErrorSource {
    /// The name under which the list appears in messages.
    pub open spec fn name(&self) -> Seq<char> {
        match self {
            TransactionErrorSource::CellDeps => "CellDeps"@,
            TransactionErrorSource::HeaderDeps => "HeaderDeps"@,
            TransactionErrorSource::Inputs => "Inputs"@,
            TransactionErrorSource::Outputs => "Outputs"@,
            TransactionErrorSource::OutputsData => "OutputsData"@,
            TransactionErrorSource::Witnesses => "Witnesses"@,
        }
    }

    /// The name of the list as a string slice.
    pub fn as_str(&self) -> (s: &'static str)
        ensures
            s@ == self.name(),
    {
        match self {
            TransactionErrorSource::CellDeps => "CellDeps",
            TransactionErrorSource::HeaderDeps => "HeaderDeps",
            TransactionErrorSource::Inputs => "Inputs",
            TransactionErrorSource::Outputs => "Outputs",
            TransactionErrorSource::OutputsData => "OutputsData",
            TransactionErrorSource::Witnesses => "Witnesses",
        }
    }

    /// The name of the list as an owned string.
    pub fn to_string(&self) -> (s: String)
        ensures
            s@ == self.name(),
    {
        String::from_str(self.as_str())
    }
}

} // verus!
