//! The rule that a transaction carries one data item for each output.

use vstd::prelude::*;

use crate::ckb::{
    follows_schema, outputs_data_len, outputs_len, schema_holds, transaction_bytes,
    transaction_outputs, transaction_outputs_data,
};
use crate::error::TransactionError;

verus! {

/// Holds the number of outputs against the number of data items: equal
/// numbers pass, and unequal ones are reported, both numbers with them.
pub fn check_lengths(outputs_len: usize, outputs_data_len: usize) -> (verdict: Result<
    (),
    TransactionError,
>)
    ensures
        outputs_len == outputs_data_len ==> verdict is Ok,
        outputs_len != outputs_data_len ==> verdict == Err::<(), TransactionError>(
            TransactionError::OutputsDataLengthMismatch { outputs_len, outputs_data_len },
        ),
{
    if outputs_len != outputs_data_len {
        return Err(TransactionError::OutputsDataLengthMismatch { outputs_data_len, outputs_len });
    }
    Ok(())
}

/// Checks that the outputs and the outputs data of one transaction have the
/// same length. The transaction of a verifier follows the schema, so that
/// its lists can be read.
pub struct OutputsDataVerifier<'a> {
    transaction: &'a ckb_types::core::TransactionView,
}

impl<'a> OutputsDataVerifier<'a> {
    #[verifier::type_invariant]
    spec fn readable(self) -> bool {
        follows_schema(transaction_bytes(*self.transaction))
    }

    /// The transaction that the verifier reads.
    pub closed spec fn transaction(&self) -> ckb_types::core::TransactionView {
        *self.transaction
    }

    /// The number of outputs of the transaction.
    pub open spec fn outputs_len(&self) -> nat {
        transaction_outputs(self.transaction()).len()
    }

    /// The number of data items of the transaction.
    pub open spec fn outputs_data_len(&self) -> nat {
        transaction_outputs_data(self.transaction()).len()
    }

    /// A verifier of the given transaction, whose bytes follow the schema.
    pub fn new(transaction: &'a ckb_types::core::TransactionView) -> (verifier: Self)
        requires
            follows_schema(transaction_bytes(*transaction)),
        ensures
            verifier.transaction() == *transaction,
    {
        Self { transaction }
    }

    /// A verifier of the given transaction, or nothing where its bytes do
    /// not follow the schema. The test reads the whole transaction.
    pub fn try_new(transaction: &'a ckb_types::core::TransactionView) -> (verifier: Option<Self>)
        ensures
            follows_schema(transaction_bytes(*transaction)) ==> {
                &&& verifier matches Some(made)
                &&& made.transaction() == *transaction
            },
            !follows_schema(transaction_bytes(*transaction)) ==> verifier is None,
    {
        if schema_holds(transaction) {
            Some(Self::new(transaction))
        } else {
            None
        }
    }

    /// Succeeds where the transaction has as many data items as outputs, and
    /// else reports both lengths. The transaction is read and left as it is.
    pub fn verify(&self) -> (verdict: Result<(), TransactionError>)
        ensures
            self.outputs_len() == self.outputs_data_len() ==> verdict is Ok,
            self.outputs_len() != self.outputs_data_len() ==> {
                &&& verdict matches Err(
                    TransactionError::OutputsDataLengthMismatch { outputs_len, outputs_data_len },
                )
                &&& outputs_len == self.outputs_len()
                &&& outputs_data_len == self.outputs_data_len()
            },
    {
        proof {
            use_type_invariant(self);
        }
        let outputs_len = outputs_len(self.transaction);
        let outputs_data_len = outputs_data_len(self.transaction);
        check_lengths(outputs_len, outputs_data_len)
    }
}

} // verus!
