//! A minimal two-asset constant-product market maker.
//!
//! The crate is the pool invariant engine of a small exchange: it prices a
//! swap against the constant-product curve, validates swap and deposit
//! requests against caller-supplied bounds, and describes — as plain data —
//! the balance movements an external ledger must execute on its behalf.
//! Account lookup, authentication and the transfers themselves belong to
//! that external ledger; everything here is pure computation over the
//! figures it supplies.

pub mod engine;
pub mod errors;
pub mod pool;
pub mod pricing;
