//! The persisted shape of a record: validation kinds, the fixed-size header,
//! and the segment layout of the body.

pub mod record_body;
pub mod record_header;
pub mod validation;
