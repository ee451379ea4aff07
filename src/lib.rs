//! A verified pipeline that fetches the university course catalog export,
//! decodes it from Shift_JIS CSV into course records and splits them by
//! academic level.
//!
//! - `record`: the course record, its level and the split by level.
//! - `decode`: raw catalog bytes to records, columns found by their titles.
//! - `portal`: the forms the portal expects and its error-page check.
//! - `session`: one run as a state machine; the caller performs each action
//!   (a file check, an HTTP request, a read or a write) and reports the event.

pub mod decode;
pub mod portal;
pub mod record;
pub mod session;
