//! Header layout of a curated-review worksheet: locating the header row,
//! building the name/index lookups, and rendering the layout report.

pub mod text;
pub mod lookups;
pub mod report;
pub mod reader;
pub mod sheet;
pub mod yaml;

pub use crate::lookups::HeaderLookups;
pub use crate::report::{write_report, RunProvenance};
pub use crate::sheet::{parse_headers, InputError};
pub use crate::yaml::{write_yaml, SerializationError};
