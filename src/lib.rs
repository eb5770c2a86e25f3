//! Translation of portable resource-usage requests into hardware capability
//! flags, and validation of texture sizes against device limits.
pub mod align;
pub mod dimension;
pub mod flags;
pub mod format;
pub mod usage;
