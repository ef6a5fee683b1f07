//! Ingestion: files are scanned, those that changed are read for their
//! symbols, and the symbols are written to the graph in one batch per file.

pub mod extractor;
pub mod ingest;
pub mod parser;
pub mod scanner;
