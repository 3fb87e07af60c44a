//! Bookkeeping and decisions of the allocator that Opus C code uses on
//! WebAssembly: which requests get memory and with what layout, the record of
//! live blocks keyed by address, what a release or a resize must do, and the
//! byte work of zeroed and moved blocks. The raw memory calls stand outside.

pub mod bytes;
pub mod laws;
pub mod layout;
pub mod table;
