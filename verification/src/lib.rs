//! Deep-link dispatch core: parse an externally supplied URL, classify it by
//! intent, extract the one required parameter, and decide whether to emit an
//! authorization callback event or to record a diagnostic.

pub mod diagnostic;
pub mod dispatch;
pub mod intent;
pub mod url_parts;
