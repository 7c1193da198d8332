//! Singly linked stacks: a list owns its first node, and every node owns the
//! rest of the chain. Each list is modelled by the sequence of its elements,
//! head first.

pub mod first;
pub mod laws;
pub mod model;
pub mod second;
