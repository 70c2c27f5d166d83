//! Small verified building blocks: checked integer arithmetic, linear
//! search, text length, and message selection for a handful of enumerations.

pub mod arith;
pub mod search;
pub mod text;
pub mod animal;
pub mod describe;
pub mod signal;
pub mod counting;
