//! A thread-safe-by-design, exactly-once lazy initialization cell.
//!
//! The crate has two halves:
//!
//! * [`protocol`] models the cell's initialization protocol — the three-state
//!   machine `Empty -> Running -> Done` driven by atomic steps — and proves
//!   its safety laws: at most one caller ever wins the race to run the
//!   builder, the `Done` state is permanent, and every observer of `Done`
//!   sees one fully published value.
//! * [`lazy`] holds the executable cell, [`Lazy`], whose operations are
//!   verified against that model.

pub use self::lazy::Lazy;

pub mod lazy;
pub mod protocol;
