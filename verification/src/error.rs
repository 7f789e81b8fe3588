//! The violations that transaction verification reports.

use vstd::prelude::*;
use vstd::string::*;

use crate::ckb::{byte32_text, byte32_to_string, out_point_text, out_point_to_string};
use crate::out_point::{hash_eq, OutPoint};
use crate::render::{
    append_decimal, append_hexadecimal, decimal, hexadecimal, labelled, labelled_string,
};
use crate::source::TransactionErrorSource;

verus! {

/// A violation found in a transaction.
#[derive(Clone, Copy, Debug)]
#[allow(inconsistent_fields)]
pub enum TransactionError {
    /// A cell occupies more capacity than it declares.
    InsufficientCellCapacity {
        /// The list that holds the cell.
        inner: TransactionErrorSource,
        /// The position of the cell in that list.
        index: usize,
        /// The capacity that the cell occupies, in shannons.
        occupied_capacity: u64,
        /// The capacity that the cell declares, in shannons.
        capacity: u64,
    },
    /// The outputs declare more capacity in total than the inputs provide.
    OutputsSumOverflow {
        /// The total capacity of the inputs, in shannons.
        inputs_sum: u64,
        /// The total capacity of the outputs, in shannons.
        outputs_sum: u64,
    },
    /// The inputs or the outputs are empty.
    Empty {
        /// The list that is empty.
        inner: TransactionErrorSource,
    },
    /// A cell dependency is named more than once.
    DuplicateCellDeps {
        /// The out-point that occurs again.
        out_point: OutPoint,
    },
    /// A header dependency is named more than once.
    DuplicateHeaderDeps {
        /// The block hash that occurs again.
        hash: [u8; 32],
    },
    /// The outputs and the outputs data differ in length.
    OutputsDataLengthMismatch {
        /// The number of outputs.
        outputs_len: usize,
        /// The number of data items.
        outputs_data_len: usize,
    },
    /// The since field of an input is not a valid encoding.
    InvalidSince {
        /// The position of the input.
        index: usize,
    },
    /// The since field of an input asks for a later point of the chain.
    Immature {
        /// The position of the input.
        index: usize,
    },
    /// A cell of a cellbase is spent before it has matured.
    CellbaseImmaturity {
        /// The list that holds the reference to the cell.
        inner: TransactionErrorSource,
        /// The position of the reference in that list.
        index: usize,
    },
    /// The version of the transaction is not the one that the node accepts.
    MismatchedVersion {
        /// The version that the node accepts.
        expected: u32,
        /// The version of the transaction.
        actual: u32,
    },
    /// The serialized transaction is too large for a block.
    ExceededMaximumBlockBytes {
        /// The size limit of a block, in bytes.
        limit: u64,
        /// The serialized size of the transaction, in bytes.
        actual: u64,
    },
}

impl TransactionError {
    /// Whether the violation shows in the transaction's own bytes, whatever
    /// the state of the chain: every kind but the three that depend on the
    /// chain's height or time or on the version that the node accepts.
    pub open spec fn is_malformed(&self) -> bool {
        !(self is Immature || self is CellbaseImmaturity || self is MismatchedVersion)
    }

    /// Each kind falls into exactly one class: eight kinds are malformed, the
    /// other three are not, and there is no kind besides these.
    pub proof fn lemma_every_kind_has_one_class(self)
        ensures
            self.is_malformed() <==> {
                ||| self is OutputsSumOverflow
                ||| self is DuplicateCellDeps
                ||| self is DuplicateHeaderDeps
                ||| self is Empty
                ||| self is InsufficientCellCapacity
                ||| self is InvalidSince
                ||| self is ExceededMaximumBlockBytes
                ||| self is OutputsDataLengthMismatch
            },
            !self.is_malformed() <==> {
                ||| self is Immature
                ||| self is CellbaseImmaturity
                ||| self is MismatchedVersion
            },
    {
    }

    /// Whether the transaction is malformed, so that it can never become valid.
    pub fn is_malformed_tx(&self) -> (malformed: bool)
        ensures
            malformed == self.is_malformed(),
    {
        match self {
            TransactionError::OutputsSumOverflow { .. }
            | TransactionError::DuplicateCellDeps { .. }
            | TransactionError::DuplicateHeaderDeps { .. }
            | TransactionError::Empty { .. }
            | TransactionError::InsufficientCellCapacity { .. }
            | TransactionError::InvalidSince { .. }
            | TransactionError::ExceededMaximumBlockBytes { .. }
            | TransactionError::OutputsDataLengthMismatch { .. } => true,
            TransactionError::Immature { .. }
            | TransactionError::CellbaseImmaturity { .. }
            | TransactionError::MismatchedVersion { .. } => false,
        }
    }

    /// The text that describes the violation, with every value it carries:
    /// capacities in hexadecimal, positions, lengths, versions and sizes in
    /// decimal, a list by its name, a hash and an out-point as the chain's
    /// types print them.
    pub open spec fn message(&self) -> Seq<char> {
        match *self {
            TransactionError::InsufficientCellCapacity {
                inner,
                index,
                occupied_capacity,
                capacity,
            } => {
                "InsufficientCellCapacity("@ + inner.name() + "["@ + decimal(index as nat)
                    + "]): expected occupied capacity ("@ + hexadecimal(occupied_capacity as nat)
                    + ") <= capacity ("@ + hexadecimal(capacity as nat) + ")"@
            },
            TransactionError::OutputsSumOverflow { inputs_sum, outputs_sum } => {
                "OutputsSumOverflow: expected outputs capacity ("@ + hexadecimal(outputs_sum as nat)
                    + ") <= inputs capacity ("@ + hexadecimal(inputs_sum as nat) + ")"@
            },
            TransactionError::Empty { inner } => labelled("Empty"@, inner.name()),
            TransactionError::DuplicateCellDeps { out_point } => {
                labelled("DuplicateCellDeps"@, out_point_text(out_point.tx_hash@, out_point.index))
            },
            TransactionError::DuplicateHeaderDeps { hash } => {
                labelled("DuplicateHeaderDeps"@, byte32_text(hash@))
            },
            TransactionError::OutputsDataLengthMismatch { outputs_len, outputs_data_len } => {
                "OutputsDataLengthMismatch: expected outputs data length ("@ + decimal(
                    outputs_data_len as nat,
                ) + ") = outputs length ("@ + decimal(outputs_len as nat) + ")"@
            },
            TransactionError::InvalidSince { index } => {
                "InvalidSince(Inputs["@ + decimal(index as nat)
                    + "]): the field since is invalid"@
            },
            TransactionError::Immature { index } => {
                "Immature(Inputs["@ + decimal(index as nat)
                    + "]): the transaction is immature because of the since requirement"@
            },
            TransactionError::CellbaseImmaturity { inner, index } => {
                "CellbaseImmaturity("@ + inner.name() + "["@ + decimal(index as nat) + "])"@
            },
            TransactionError::MismatchedVersion { expected, actual } => {
                "MismatchedVersion: expected "@ + decimal(expected as nat) + ", got "@ + decimal(
                    actual as nat,
                )
            },
            TransactionError::ExceededMaximumBlockBytes { limit, actual } => {
                "ExceededMaximumBlockBytes: expected transaction serialized size ("@ + decimal(
                    actual as nat,
                ) + ") < block size limit ("@ + decimal(limit as nat) + ")"@
            },
        }
    }

    /// The message of the violation as a string.
    pub fn to_string(&self) -> (text: String)
        ensures
            text@ == self.message(),
    {
        match self {
            TransactionError::InsufficientCellCapacity {
                inner,
                index,
                occupied_capacity,
                capacity,
            } => {
                let mut text = String::from_str("InsufficientCellCapacity(");
                text.append(inner.as_str());
                text.append("[");
                append_decimal(&mut text, *index as u64);
                text.append("]): expected occupied capacity (");
                append_hexadecimal(&mut text, *occupied_capacity);
                text.append(") <= capacity (");
                append_hexadecimal(&mut text, *capacity);
                text.append(")");
                text
            },
            TransactionError::OutputsSumOverflow { inputs_sum, outputs_sum } => {
                let mut text = String::from_str("OutputsSumOverflow: expected outputs capacity (");
                append_hexadecimal(&mut text, *outputs_sum);
                text.append(") <= inputs capacity (");
                append_hexadecimal(&mut text, *inputs_sum);
                text.append(")");
                text
            },
            TransactionError::Empty { inner } => labelled_string("Empty", inner.as_str()),
            TransactionError::DuplicateCellDeps { out_point } => {
                let detail = out_point_to_string(&out_point.tx_hash, out_point.index);
                labelled_string("DuplicateCellDeps", detail.as_str())
            },
            TransactionError::DuplicateHeaderDeps { hash } => {
                let detail = byte32_to_string(hash);
                labelled_string("DuplicateHeaderDeps", detail.as_str())
            },
            TransactionError::OutputsDataLengthMismatch { outputs_len, outputs_data_len } => {
                let mut text = String::from_str(
                    "OutputsDataLengthMismatch: expected outputs data length (",
                );
                append_decimal(&mut text, *outputs_data_len as u64);
                text.append(") = outputs length (");
                append_decimal(&mut text, *outputs_len as u64);
                text.append(")");
                text
            },
            TransactionError::InvalidSince { index } => {
                let mut text = String::from_str("InvalidSince(Inputs[");
                append_decimal(&mut text, *index as u64);
                text.append("]): the field since is invalid");
                text
            },
            TransactionError::Immature { index } => {
                let mut text = String::from_str("Immature(Inputs[");
                append_decimal(&mut text, *index as u64);
                text.append("]): the transaction is immature because of the since requirement");
                text
            },
            TransactionError::CellbaseImmaturity { inner, index } => {
                let mut text = String::from_str("CellbaseImmaturity(");
                text.append(inner.as_str());
                text.append("[");
                append_decimal(&mut text, *index as u64);
                text.append("])");
                text
            },
            TransactionError::MismatchedVersion { expected, actual } => {
                let mut text = String::from_str("MismatchedVersion: expected ");
                append_decimal(&mut text, *expected as u64);
                text.append(", got ");
                append_decimal(&mut text, *actual as u64);
                text
            },
            TransactionError::ExceededMaximumBlockBytes { limit, actual } => {
                let mut text = String::from_str(
                    "ExceededMaximumBlockBytes: expected transaction serialized size (",
                );
                append_decimal(&mut text, *actual);
                text.append(") < block size limit (");
                append_decimal(&mut text, *limit);
                text.append(")");
                text
            },
        }
    }
}

impl TransactionError {
    /// Whether two violations are of one kind, whatever they carry.
    pub open spec fn same_kind(&self, other: &Self) -> bool {
        ||| self is InsufficientCellCapacity && other is InsufficientCellCapacity
        ||| self is OutputsSumOverflow && other is OutputsSumOverflow
        ||| self is Empty && other is Empty
        ||| self is DuplicateCellDeps && other is DuplicateCellDeps
        ||| self is DuplicateHeaderDeps && other is DuplicateHeaderDeps
        ||| self is OutputsDataLengthMismatch && other is OutputsDataLengthMismatch
        ||| self is InvalidSince && other is InvalidSince
        ||| self is Immature && other is Immature
        ||| self is CellbaseImmaturity && other is CellbaseImmaturity
        ||| self is MismatchedVersion && other is MismatchedVersion
        ||| self is ExceededMaximumBlockBytes && other is ExceededMaximumBlockBytes
    }

    /// Whether two violations of one kind carry the same value in every
    /// field, a hash byte by byte.
    pub open spec fn same_payload(&self, other: &Self) -> bool
        recommends
            self.same_kind(other),
    {
        match (*self, *other) {
            (
                TransactionError::InsufficientCellCapacity {
                    inner,
                    index,
                    occupied_capacity,
                    capacity,
                },
                TransactionError::InsufficientCellCapacity {
                    inner: other_inner,
                    index: other_index,
                    occupied_capacity: other_occupied_capacity,
                    capacity: other_capacity,
                },
            ) => {
                &&& inner == other_inner
                &&& index == other_index
                &&& occupied_capacity == other_occupied_capacity
                &&& capacity == other_capacity
            },
            (
                TransactionError::OutputsSumOverflow { inputs_sum, outputs_sum },
                TransactionError::OutputsSumOverflow {
                    inputs_sum: other_inputs_sum,
                    outputs_sum: other_outputs_sum,
                },
            ) => inputs_sum == other_inputs_sum && outputs_sum == other_outputs_sum,
            (
                TransactionError::Empty { inner },
                TransactionError::Empty { inner: other_inner },
            ) => inner == other_inner,
            (
                TransactionError::DuplicateCellDeps { out_point },
                TransactionError::DuplicateCellDeps { out_point: other_out_point },
            ) => {
                &&& out_point.tx_hash@ == other_out_point.tx_hash@
                &&& out_point.index == other_out_point.index
            },
            (
                TransactionError::DuplicateHeaderDeps { hash },
                TransactionError::DuplicateHeaderDeps { hash: other_hash },
            ) => hash@ == other_hash@,
            (
                TransactionError::OutputsDataLengthMismatch { outputs_len, outputs_data_len },
                TransactionError::OutputsDataLengthMismatch {
                    outputs_len: other_outputs_len,
                    outputs_data_len: other_outputs_data_len,
                },
            ) => outputs_len == other_outputs_len && outputs_data_len == other_outputs_data_len,
            (
                TransactionError::InvalidSince { index },
                TransactionError::InvalidSince { index: other_index },
            ) => index == other_index,
            (
                TransactionError::Immature { index },
                TransactionError::Immature { index: other_index },
            ) => index == other_index,
            (
                TransactionError::CellbaseImmaturity { inner, index },
                TransactionError::CellbaseImmaturity { inner: other_inner, index: other_index },
            ) => inner == other_inner && index == other_index,
            (
                TransactionError::MismatchedVersion { expected, actual },
                TransactionError::MismatchedVersion {
                    expected: other_expected,
                    actual: other_actual,
                },
            ) => expected == other_expected && actual == other_actual,
            (
                TransactionError::ExceededMaximumBlockBytes { limit, actual },
                TransactionError::ExceededMaximumBlockBytes {
                    limit: other_limit,
                    actual: other_actual,
                },
            ) => limit == other_limit && actual == other_actual,
            _ => false,
        }
    }

    /// Two violations are equal exactly when they are of one kind and carry
    /// the same value in every field.
    pub proof fn lemma_equality_is_structural(self, other: Self)
        ensures
            self == other <==> self.same_kind(&other) && self.same_payload(&other),
    {
        match (self, other) {
            (
                TransactionError::DuplicateCellDeps { out_point },
                TransactionError::DuplicateCellDeps { out_point: other_out_point },
            ) => {
                if out_point.tx_hash@ == other_out_point.tx_hash@ {
                    assert(out_point.tx_hash =~= other_out_point.tx_hash);
                }
            },
            (
                TransactionError::DuplicateHeaderDeps { hash },
                TransactionError::DuplicateHeaderDeps { hash: other_hash },
            ) => {
                if hash@ == other_hash@ {
                    assert(hash =~= other_hash);
                }
            },
            _ => {},
        }
    }

    /// The classification looks at the kind alone: two violations of one
    /// kind fall into the same class, whatever they carry.
    pub proof fn lemma_class_follows_kind(self, other: Self)
        requires
            self.same_kind(&other),
        ensures
            self.is_malformed() == other.is_malformed(),
    {
    }

    /// Equal violations fall into the same class and read the same.
    pub proof fn lemma_equal_errors_agree(self, other: Self)
        requires
            self == other,
        ensures
            self.is_malformed() == other.is_malformed(),
            self.message() == other.message(),
    {
    }
}

impl PartialEq for TransactionError {
    fn eq(&self, other: &Self) -> (same: bool) {
        match (self, other) {
            (
                TransactionError::InsufficientCellCapacity {
                    inner,
                    index,
                    occupied_capacity,
                    capacity,
                },
                TransactionError::InsufficientCellCapacity {
                    inner: other_inner,
                    index: other_index,
                    occupied_capacity: other_occupied_capacity,
                    capacity: other_capacity,
                },
            ) => {
                *inner == *other_inner && *index == *other_index && *occupied_capacity
                    == *other_occupied_capacity && *capacity == *other_capacity
            },
            (
                TransactionError::OutputsSumOverflow { inputs_sum, outputs_sum },
                TransactionError::OutputsSumOverflow {
                    inputs_sum: other_inputs_sum,
                    outputs_sum: other_outputs_sum,
                },
            ) => *inputs_sum == *other_inputs_sum && *outputs_sum == *other_outputs_sum,
            (
                TransactionError::Empty { inner },
                TransactionError::Empty { inner: other_inner },
            ) => *inner == *other_inner,
            (
                TransactionError::DuplicateCellDeps { out_point },
                TransactionError::DuplicateCellDeps { out_point: other_out_point },
            ) => *out_point == *other_out_point,
            (
                TransactionError::DuplicateHeaderDeps { hash },
                TransactionError::DuplicateHeaderDeps { hash: other_hash },
            ) => hash_eq(hash, other_hash),
            (
                TransactionError::OutputsDataLengthMismatch { outputs_len, outputs_data_len },
                TransactionError::OutputsDataLengthMismatch {
                    outputs_len: other_outputs_len,
                    outputs_data_len: other_outputs_data_len,
                },
            ) => *outputs_len == *other_outputs_len && *outputs_data_len == *other_outputs_data_len,
            (
                TransactionError::InvalidSince { index },
                TransactionError::InvalidSince { index: other_index },
            ) => *index == *other_index,
            (
                TransactionError::Immature { index },
                TransactionError::Immature { index: other_index },
            ) => *index == *other_index,
            (
                TransactionError::CellbaseImmaturity { inner, index },
                TransactionError::CellbaseImmaturity { inner: other_inner, index: other_index },
            ) => *inner == *other_inner && *index == *other_index,
            (
                TransactionError::MismatchedVersion { expected, actual },
                TransactionError::MismatchedVersion {
                    expected: other_expected,
                    actual: other_actual,
                },
            ) => *expected == *other_expected && *actual == *other_actual,
            (
                TransactionError::ExceededMaximumBlockBytes { limit, actual },
                TransactionError::ExceededMaximumBlockBytes {
                    limit: other_limit,
                    actual: other_actual,
                },
            ) => *limit == *other_limit && *actual == *other_actual,
            _ => false,
        }
    }
}

impl Eq for TransactionError {

}

impl vstd::std_specs::cmp::PartialEqSpecImpl for TransactionError {
    open spec fn obeys_eq_spec() -> bool {
        true
    }

    open spec fn eq_spec(&self, other: &Self) -> bool {
        *self == *other
    }
}

} // verus!
