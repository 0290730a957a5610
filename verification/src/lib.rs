//! Two fundamental linear containers over singly-linked chains of nodes:
//! a LIFO [`stack::Stack`] with an optional fixed capacity ceiling, and a
//! FIFO [`queue::Queue`] with tracked tail access for constant-time append.

pub mod queue;
pub mod stack;
