//! Numeric value primitives that reserve one bit pattern of the element type
//! as a sentinel meaning "absent", so that an optional value or a
//! "best value so far" tracker occupies no separate presence flag.

pub mod compact_num;
pub mod element;
pub mod error;
pub mod policy;
pub mod updatable_num;
pub mod updatable_num_data;
