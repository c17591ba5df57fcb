//! A persistent (immutable) singly-linked list with structural sharing,
//! a non-owning cursor over it, and a fail-fast order-validation pipeline
//! built from option/result composition.

pub mod list;
pub mod validation;
