//! Extraction of a structured competitor profile from a semi-structured
//! HTML document: cell-text coercion, typed record assembly, structural
//! validation, and the document-to-record pipeline.

pub mod coerce;
pub mod dom;
pub mod error;
pub mod extract;
pub mod laws;
pub mod model;
pub mod pipeline;

pub use coerce::{parse_int, parse_time};
pub use error::ParseError;
pub use extract::{extract_profile_fields, extract_user_info, profile_fields_from_trimmed};
pub use model::{Event, Gender, ProfileFields, RecordGroup, UserInfo};
pub use pipeline::parse_html;
