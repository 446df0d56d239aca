//! The journal of failed operations: dated partitions, one list of records
//! per kind of operation, each record with what is needed to try again.

pub mod clock;
pub mod entries;
pub mod journal;
pub mod laws;
pub mod manager;

pub use clock::Timestamp;
pub use entries::{ConvertErrorEntry, DownloadErrorEntry, ErrorType, RefreshErrorEntry};
pub use journal::{Partition, StoreOp};
pub use manager::ErrorLogManager;
