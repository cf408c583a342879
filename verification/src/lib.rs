//! An in-memory value tree for the MessagePack data model, together with
//! the builders that assemble compound values one element at a time.
//!
//! The tree distinguishes every shape MessagePack can carry: nil, booleans,
//! sign-tagged 64-bit integers, both float widths, UTF-8 text (with raw
//! bytes kept verbatim when the input is not valid UTF-8), binary blobs,
//! arrays, order-preserving maps, and extension values.

pub mod bridge;
pub mod builders;
pub mod eq;
pub mod error;
pub mod laws;
pub mod value;

pub use value::Integer;
pub use value::Utf8String;
pub use value::Value;
pub use value::ValueModel;
