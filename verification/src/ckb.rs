//! What the library takes from `ckb_types`: the view of a transaction, checked
//! against the schema and read for the lengths of two of its lists, and the
//! text that the crate prints for a block hash and for an out-point. Nothing
//! in this file is proved: each contract is taken on trust from the crate's
//! source.

use ckb_types::prelude::{Entity, Reader};
use vstd::prelude::*;

verus! {

/// `ckb_types::core::TransactionView`, carried as it is: a read-only view of
/// one serialized transaction. The crate's builders and checked parsers make
/// views whose bytes follow the schema; its `new_unchecked` constructors take
/// any bytes, and on those the accessors may panic.
#[verifier::external_type_specification]
#[verifier::external_body]
pub struct ExTransactionView(ckb_types::core::TransactionView);

/// The serialized bytes of the transaction under a view.
pub uninterp spec fn transaction_bytes(transaction: ckb_types::core::TransactionView) -> Seq<u8>;

/// Whether `TransactionReader::verify` accepts the bytes in its compatible
/// mode, as a transaction that may carry fields behind the known ones.
pub uninterp spec fn follows_schema(bytes: Seq<u8>) -> bool;

/// The outputs of the transaction under a view, in their order, each as its
/// serialized bytes.
pub uninterp spec fn transaction_outputs(transaction: ckb_types::core::TransactionView) -> Seq<Seq<u8>>;

/// The data items of the transaction under a view, in their order, each as
/// its bytes.
pub uninterp spec fn transaction_outputs_data(transaction: ckb_types::core::TransactionView) -> Seq<Seq<u8>>;

/// The text that `ckb_types::packed::Byte32` prints for thirty-two bytes.
pub uninterp spec fn byte32_text(bytes: Seq<u8>) -> Seq<char>;

/// The text that `ckb_types::packed::OutPoint` prints for a transaction hash
/// and an index.
pub uninterp spec fn out_point_text(tx_hash: Seq<u8>, index: u32) -> Seq<char>;

/// `TransactionReader::verify` in compatible mode, on the bytes that
/// `TransactionView::data` hands out: whether every size and offset in them,
/// down to the innermost field, is as the schema asks. It tests each length
/// before it reads and so returns on any bytes.
#[verifier::external_body]
pub(crate) fn schema_holds(transaction: &ckb_types::core::TransactionView) -> (holds: bool)
    ensures
        holds == follows_schema(transaction_bytes(*transaction)),
{
    ckb_types::packed::TransactionReader::verify(transaction.data().as_slice(), true).is_ok()
}

/// `TransactionView::outputs`, then `len` of the vector it returns: the
/// number of outputs, read from the vector's header. The accessors slice the
/// bytes by the offsets found in them, hence the precondition.
#[verifier::external_body]
pub(crate) fn outputs_len(transaction: &ckb_types::core::TransactionView) -> (len: usize)
    requires
        follows_schema(transaction_bytes(*transaction)),
    ensures
        len == transaction_outputs(*transaction).len(),
{
    transaction.outputs().len()
}

/// `TransactionView::outputs_data`, then `len` of the vector it returns: the
/// number of data items, read from the vector's header. The accessors slice
/// the bytes by the offsets found in them, hence the precondition.
#[verifier::external_body]
pub(crate) fn outputs_data_len(transaction: &ckb_types::core::TransactionView) -> (len: usize)
    requires
        follows_schema(transaction_bytes(*transaction)),
    ensures
        len == transaction_outputs_data(*transaction).len(),
{
    transaction.outputs_data().len()
}

/// `Display` of `ckb_types::packed::Byte32`, on the value that `Byte32::new`
/// makes of the bytes. The text depends on the bytes alone.
#[verifier::external_body]
pub(crate) fn byte32_to_string(bytes: &[u8; 32]) -> (text: String)
    ensures
        text@ == byte32_text(bytes@),
{
    ckb_types::packed::Byte32::new(*bytes).to_string()
}

/// `Display` of `ckb_types::packed::OutPoint`, on the value that
/// `OutPoint::new` makes of the hash and the index. The text depends on
/// these two alone.
#[verifier::external_body]
pub(crate) fn out_point_to_string(tx_hash: &[u8; 32], index: u32) -> (text: String)
    ensures
        text@ == out_point_text(tx_hash@, index),
{
    ckb_types::packed::OutPoint::new(ckb_types::packed::Byte32::new(*tx_hash), index).to_string()
}

} // verus!
