//! Singly-linked stacks: a fixed-element variant and a generic variant with
//! three traversal views.

pub mod stack_model;
pub mod bad_stack;
pub mod ok_stack;
