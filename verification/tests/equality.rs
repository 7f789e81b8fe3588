use tx_verifier::out_point::hash_eq;
use tx_verifier::{OutPoint, TransactionError, TransactionErrorSource};

#[test]
fn equal_kind_and_payload_are_equal() {
    let a = TransactionError::InsufficientCellCapacity {
        inner: TransactionErrorSource::Outputs,
        index: 2,
        occupied_capacity: 100,
        capacity: 50,
    };
    let b = TransactionError::InsufficientCellCapacity {
        inner: TransactionErrorSource::Outputs,
        index: 2,
        occupied_capacity: 100,
        capacity: 50,
    };
    assert_eq!(a, b);
    assert_eq!(a, a.clone());
}

#[test]
fn changed_index_breaks_equality() {
    assert_ne!(TransactionError::Immature { index: 0 }, TransactionError::Immature { index: 1 });
    assert_ne!(
        TransactionError::CellbaseImmaturity { inner: TransactionErrorSource::Inputs, index: 0 },
        TransactionError::CellbaseImmaturity { inner: TransactionErrorSource::Inputs, index: 1 },
    );
}

#[test]
fn each_field_counts() {
    let base = TransactionError::InsufficientCellCapacity {
        inner: TransactionErrorSource::Outputs,
        index: 2,
        occupied_capacity: 100,
        capacity: 50,
    };
    assert_ne!(
        base,
        TransactionError::InsufficientCellCapacity {
            inner: TransactionErrorSource::Inputs,
            index: 2,
            occupied_capacity: 100,
            capacity: 50,
        }
    );
    assert_ne!(
        base,
        TransactionError::InsufficientCellCapacity {
            inner: TransactionErrorSource::Outputs,
            index: 2,
            occupied_capacity: 101,
            capacity: 50,
        }
    );
    assert_ne!(
        base,
        TransactionError::InsufficientCellCapacity {
            inner: TransactionErrorSource::Outputs,
            index: 2,
            occupied_capacity: 100,
            capacity: 51,
        }
    );
    assert_ne!(
        TransactionError::OutputsSumOverflow { inputs_sum: 1, outputs_sum: 2 },
        TransactionError::OutputsSumOverflow { inputs_sum: 2, outputs_sum: 1 },
    );
    assert_ne!(
        TransactionError::OutputsDataLengthMismatch { outputs_len: 3, outputs_data_len: 2 },
        TransactionError::OutputsDataLengthMismatch { outputs_len: 2, outputs_data_len: 3 },
    );
    assert_ne!(
        TransactionError::MismatchedVersion { expected: 0, actual: 1 },
        TransactionError::MismatchedVersion { expected: 0, actual: 2 },
    );
    assert_ne!(
        TransactionError::ExceededMaximumBlockBytes { limit: 10, actual: 11 },
        TransactionError::ExceededMaximumBlockBytes { limit: 9, actual: 11 },
    );
}

#[test]
fn kinds_with_the_same_payload_differ() {
    assert_ne!(TransactionError::InvalidSince { index: 0 }, TransactionError::Immature { index: 0 });
    assert_ne!(
        TransactionError::Empty { inner: TransactionErrorSource::Inputs },
        TransactionError::Empty { inner: TransactionErrorSource::Outputs },
    );
}

#[test]
fn hashes_compare_byte_by_byte() {
    let zero = [0u8; 32];
    let mut last = [0u8; 32];
    last[31] = 1;
    let mut first = [0u8; 32];
    first[0] = 1;
    assert!(hash_eq(&zero, &[0u8; 32]));
    assert!(!hash_eq(&zero, &last));
    assert!(!hash_eq(&zero, &first));
    assert_eq!(
        TransactionError::DuplicateHeaderDeps { hash: zero },
        TransactionError::DuplicateHeaderDeps { hash: [0u8; 32] },
    );
    assert_ne!(
        TransactionError::DuplicateHeaderDeps { hash: zero },
        TransactionError::DuplicateHeaderDeps { hash: last },
    );
}

#[test]
fn out_points_compare_by_hash_and_index() {
    let a = OutPoint { tx_hash: [9u8; 32], index: 1 };
    let mut other_hash = [9u8; 32];
    other_hash[15] = 8;
    assert_eq!(a, OutPoint { tx_hash: [9u8; 32], index: 1 });
    assert_ne!(a, OutPoint { tx_hash: [9u8; 32], index: 2 });
    assert_ne!(a, OutPoint { tx_hash: other_hash, index: 1 });
    assert_ne!(
        TransactionError::DuplicateCellDeps { out_point: a },
        TransactionError::DuplicateCellDeps { out_point: OutPoint { tx_hash: other_hash, index: 1 } },
    );
}

#[test]
fn sources_compare_by_variant() {
    assert_eq!(TransactionErrorSource::CellDeps, TransactionErrorSource::CellDeps);
    assert_ne!(TransactionErrorSource::CellDeps, TransactionErrorSource::HeaderDeps);
    assert_ne!(TransactionErrorSource::Outputs, TransactionErrorSource::OutputsData);
}
