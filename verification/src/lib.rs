//! Building blocks for checkers and interactors of automated judges: a
//! tokenizing reader over a byte source, a contract reader that turns tokens
//! into checked values and verdicts, and a handle-based bridge with a
//! two-phase buffer protocol.

pub mod bridge;
pub mod compare;
pub mod contract;
pub mod judge;
pub mod number;
pub mod source;
pub mod text;
pub mod tokenized;
pub mod value;
pub mod verdict;
