//! Syntactic-sugar combinators for growing fixed-size sequences.
//!
//! The [`combin`] module grows tuples, arrays and bare values by one element
//! at a time — at the front with [`combin::After`], at the back with
//! [`combin::Before`], or through the alias [`combin::With`] — always keeping
//! the original elements in their original relative order.

pub mod combin;

pub use combin::After;
pub use combin::Before;
pub use combin::With;
