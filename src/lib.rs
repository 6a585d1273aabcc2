//! Singly-linked lists under four ownership disciplines: an owned stack, a
//! stack with peek and iterators, a persistent list that shares its tails, and
//! an append-only queue.

pub mod fifth;
pub mod first;
pub mod laws;
pub mod second;
pub mod third;
