//! Computes p(n), the number of integer partitions of n, by Euler's
//! pentagonal-number recurrence with memoization over arbitrary-precision
//! integers.

pub mod bignum;
pub mod partition;
pub mod sequences;

pub use partition::calculate_p;
pub use partition::try_calculate_p;

pub use sequences::AddSub;
pub use sequences::AddSubCounter;
pub use sequences::AllIntegers;
pub use sequences::DifferencePartitionSequence;
pub use sequences::OddIntegers;
pub use sequences::PartitionSequence;
pub use sequences::PartitionState;
