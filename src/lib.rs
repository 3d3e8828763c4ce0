//! Zero-copy random access into fixed-layout columnar buffers.
//!
//! A logical type picks one of two read rules: dense fixed-width slots, or one
//! bit per element, least significant bit first within each byte. A
//! `PrimitiveArray` borrows a buffer and reads element `i` with the rule its
//! type parameter is bound to, chosen when the type is instantiated.
pub mod array;
pub mod bit_util;
pub mod datatypes;

pub use array::{IndexOutOfBounds, PrimitiveArray};
pub use bit_util::get_bit_raw;
pub use datatypes::{
    ArrowNumericType, ArrowPrimitiveType, BooleanType, Int16Type, Int32Type, Int64Type, Int8Type,
    UInt16Type, UInt32Type, UInt64Type, UInt8Type,
};
