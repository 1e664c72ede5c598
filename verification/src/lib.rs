//! CSV reading and writing, record by record, with verified record, position
//! and configuration handling.
//!
//! A reader works on a byte source held in memory and a writer fills a byte
//! sink held in memory; moving bytes from and to files is left to the caller.
//! Rows are tokenized by the `csv` crate; everything built on top of a
//! tokenized row (header caching, ragged-row policy, position tracking,
//! seeking, record manipulation and the writer's quoting) is proved against
//! the contracts stated in each module.

pub mod csv;
pub mod errors;
pub mod text;

pub use crate::csv::CsvRecord;
pub use crate::csv::Position;
pub use crate::csv::Reader;
pub use crate::csv::ReaderBuilder;
pub use crate::csv::Writer;
pub use crate::csv::WriterBuilder;
pub use crate::errors::ApplicationError;
pub use crate::errors::ErrorKind;
