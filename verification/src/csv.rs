pub mod laws;
pub mod position;
pub mod reader;
pub mod reader_builder;
pub mod record;
pub mod row;
pub mod writer;
pub mod writer_builder;

pub use crate::csv::position::Position;
pub use crate::csv::reader::Reader;
pub use crate::csv::reader_builder::ReaderBuilder;
pub use crate::csv::record::CsvRecord;
pub use crate::csv::writer::Writer;
pub use crate::csv::writer_builder::WriterBuilder;
