use ckb_types::packed::{Bytes, CellOutput, Transaction};
use ckb_types::prelude::{Entity, IntoTransactionView};
use tx_verifier::outputs_data::check_lengths;
use tx_verifier::{OutputsDataVerifier, TransactionError};

fn transaction(outputs: usize, outputs_data: usize) -> ckb_types::core::TransactionView {
    let mut builder = ckb_types::core::TransactionBuilder::default();
    for _ in 0..outputs {
        builder = builder.output(CellOutput::default());
    }
    for _ in 0..outputs_data {
        builder = builder.output_data(Bytes::default());
    }
    builder.build()
}

/// A view whose inner record states a wrong size of itself: the outer table
/// is intact, so the view can be made, and the schema is broken.
fn broken_transaction() -> ckb_types::core::TransactionView {
    let sound = transaction(1, 1);
    let mut bytes = sound.data().as_slice().to_vec();
    bytes[12] = bytes[12].wrapping_add(1);
    Transaction::new_unchecked(ckb_types::bytes::Bytes::from(bytes)).into_view()
}

#[test]
fn two_outputs_with_two_data_items_pass() {
    let tx = transaction(2, 2);
    assert_eq!(OutputsDataVerifier::new(&tx).verify(), Ok(()));
}

#[test]
fn three_outputs_with_two_data_items_fail() {
    let tx = transaction(3, 2);
    assert_eq!(
        OutputsDataVerifier::new(&tx).verify(),
        Err(TransactionError::OutputsDataLengthMismatch { outputs_len: 3, outputs_data_len: 2 }),
    );
}

#[test]
fn empty_lists_pass() {
    let tx = transaction(0, 0);
    assert_eq!(OutputsDataVerifier::new(&tx).verify(), Ok(()));
}

#[test]
fn missing_outputs_fail() {
    let tx = transaction(0, 1);
    assert_eq!(
        OutputsDataVerifier::new(&tx).verify(),
        Err(TransactionError::OutputsDataLengthMismatch { outputs_len: 0, outputs_data_len: 1 }),
    );
}

#[test]
fn missing_data_fails() {
    let tx = transaction(5, 0);
    assert_eq!(
        OutputsDataVerifier::new(&tx).verify(),
        Err(TransactionError::OutputsDataLengthMismatch { outputs_len: 5, outputs_data_len: 0 }),
    );
}

#[test]
fn verifying_twice_gives_the_same_verdict() {
    let tx = transaction(1, 4);
    let verifier = OutputsDataVerifier::new(&tx);
    assert_eq!(verifier.verify(), verifier.verify());
    assert_eq!(tx.outputs().len(), 1);
    assert_eq!(tx.outputs_data().len(), 4);
}

#[test]
fn mismatch_is_malformed() {
    let tx = transaction(1, 2);
    let error = OutputsDataVerifier::new(&tx).verify().unwrap_err();
    assert!(error.is_malformed_tx());
}

#[test]
fn lengths_are_held_against_each_other() {
    assert_eq!(check_lengths(0, 0), Ok(()));
    assert_eq!(check_lengths(2, 2), Ok(()));
    assert_eq!(check_lengths(usize::MAX, usize::MAX), Ok(()));
    assert_eq!(
        check_lengths(3, 2),
        Err(TransactionError::OutputsDataLengthMismatch { outputs_len: 3, outputs_data_len: 2 }),
    );
    assert_eq!(
        check_lengths(2, 3),
        Err(TransactionError::OutputsDataLengthMismatch { outputs_len: 2, outputs_data_len: 3 }),
    );
}

#[test]
fn checked_constructor_takes_built_transactions() {
    for (outputs, outputs_data) in [(0usize, 0usize), (2, 2), (3, 2), (0, 4)] {
        let tx = transaction(outputs, outputs_data);
        let verifier = OutputsDataVerifier::try_new(&tx).expect("a built transaction");
        assert_eq!(verifier.verify(), check_lengths(outputs, outputs_data));
        assert_eq!(verifier.verify(), OutputsDataVerifier::new(&tx).verify());
    }
}

#[test]
fn checked_constructor_refuses_broken_bytes() {
    let tx = broken_transaction();
    assert!(OutputsDataVerifier::try_new(&tx).is_none());
}
