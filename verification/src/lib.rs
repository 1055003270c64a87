//! A fixed-capacity byte ring buffer shared between one producer role and one
//! consumer role.  Logical offsets grow without wrapping; wrapping is applied
//! only when indexing into the storage array, whose length is a power of two.

pub mod buffer;
pub mod laws;
pub mod model;

pub use buffer::{CircularBuffer, CircularBufferUser, Consumer, Producer};
pub use model::BufferView;
