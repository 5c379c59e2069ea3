//! A composable framework for building PLONKish arithmetic-circuit gadgets.
//!
//! Chips allocate columns, register polynomial gate constraints gated by
//! selectors, assign witness values into a row-addressed grid, bind assigned
//! cells to public instance values, and wire equality (copy) constraints
//! between cells produced by different chip instances.  The framework
//! produces a constraint-system description together with a witness
//! assignment; proving and verifying satisfiability is the job of an
//! external proof backend.  A diagnostic mock prover evaluates every gate
//! on every row of the actual assignment and is the correctness oracle in
//! place of full proof generation.

pub mod add;
pub mod add2;
pub mod circuit;
pub mod columns;
pub mod eq;
pub mod expr;
pub mod field;
pub mod laws;
pub mod layout;
pub mod mock;
pub mod system;
pub mod value;
