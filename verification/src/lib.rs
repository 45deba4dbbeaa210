//! A doubly linked list of characters, verified with Verus.
//!
//! [`linked_list::List`] is the container. Its operations are specified over
//! the sequence of characters that a list stands for, with the vocabulary of
//! [`model`]; [`laws`] proves what holds between them, and [`render`] gives a
//! list its text form. The nodes of a list live in an arena and name their
//! neighbours by slot number; the module that keeps them linked is private.

mod chain;
pub mod laws;
pub mod linked_list;
pub mod model;
pub mod render;
