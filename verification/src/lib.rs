//! Structural errors of transaction verification, their classification into
//! malformed and contextual ones, and the rule that a transaction carries one
//! data item for each of its outputs.

pub mod ckb;
pub mod error;
pub mod out_point;
pub mod outputs_data;
pub mod render;
pub mod source;

pub use error::TransactionError;
pub use out_point::OutPoint;
pub use outputs_data::OutputsDataVerifier;
pub use source::TransactionErrorSource;
