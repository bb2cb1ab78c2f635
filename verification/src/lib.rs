//! Write-side binary serialization primitives: an append-only byte-sink
//! abstraction and a compact self-describing variable-length encoding for
//! unsigned 64-bit integers (vint64).

pub mod vint;
pub mod writer;

pub use vint::encoded_len;
pub use writer::ByteWriter;
pub use writer::Serializable;
pub use writer::WriteSerializable;
