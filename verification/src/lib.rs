//! Batch conversion and upload of spreadsheet files: the rules of the
//! pipeline, apart from the file system and the network.

pub mod batch;
pub mod cli;
pub mod convert;
pub mod excel;
pub mod logger;
pub mod paths;
pub mod pipeline;
pub mod scan;
pub mod session;
pub mod status;
pub mod text;
pub mod types;
pub mod upload;
pub mod utils;
