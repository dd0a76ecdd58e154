//! Decode-side adapter for an optional nested record.
//!
//! A wire document holds one field, `inner`, that is either absent or a
//! two-field record (`f`: a 64-bit float, `u`: a 128-bit identifier in
//! canonical text form). Decoding fills a write-once cell: empty when the
//! field denotes absence, filled exactly once with the validated record
//! otherwise. The walk over the record's keys rejects the first unknown
//! key, lets a repeated key overwrite its slot, and demands the float
//! field before the identifier field when one is missing.
//!
//! The textual readers (JSON, YAML, TOML) are outside crates; they hand
//! the adapter a format-independent tree of wire values, and everything
//! the adapter decides about that tree is verified.

pub mod adapter;
pub mod cell;
pub mod errors;
pub mod formats;
pub mod record;
pub mod value;
pub mod walker;
