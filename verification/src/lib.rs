//! Decision logic of a native agent that lets a managed virtual machine list
//! up to a given number of live instances of a class and ask for a full
//! garbage collection.
//!
//! The calls into the virtual machine are made by the embedding program.
//! This crate decides what to ask of the machine, in which order, and what
//! each answer means: it negotiates the tagging capability once, hands out
//! tags, bounds the heap walk, and lays out the array that is handed back.

pub mod agent;
pub mod controller;
pub mod enumeration;
pub mod negotiator;
pub mod tags;
pub mod vm;
