//! Per-file processing: what a processed file yields and the file it was
//! read from.

pub mod processor;
