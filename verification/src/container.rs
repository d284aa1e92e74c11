//! Layout containers: flex-like stacks and grid containers.

pub mod grid;
pub mod stack;
