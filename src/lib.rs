//! A small desktop calculator's logic: operators and their error rules,
//! input resolution, the memory register, and the history log with its
//! line-based file format.
//!
//! Numbers are carried as IEEE-754 binary64 bit patterns (`u64`); the
//! arithmetic itself is done by the host program.
pub mod calculator;
pub mod history;
pub mod ieee;
pub mod operation;

pub use calculator::Calculator;
pub use history::{history_entry, history_line, parse_history};
pub use ieee::{is_negative_bits, is_zero_bits};
pub use operation::{calculate, resolve_operands, CalcError, Evaluation, Operator};
