//! Compile-time isolation of calls to `unsafe` functions and methods, modelled as data.
//!
//! A call to an `unsafe` function is checked so that the callee really is `unsafe`, so that no
//! operand hides its own `unsafe` code inside the call's `unsafe` region, and so that this region
//! spans the call alone. The operands are packed once into a right-nested tuple tree, and each is
//! read back through an accessor path.
use vstd::prelude::*;

pub mod call_site;
pub mod laws;
pub mod oracle;
pub mod tuple_tree;
pub mod version;

verus! {

/// Compiles only for a `Copy` type. A value is read out from behind a pointer by copy, so such a
/// read is offered for `Copy` types alone; calling this ahead of the read rejects any other type
/// early, with a plain trait-bound error.
pub fn expect_copy_ptr<T: Copy>(_value: &T) {
}

} // verus!
