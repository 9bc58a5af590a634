//! Driver and data model of a benchmark run that proves a table of Poseidon
//! hash inputs correct and checks the proof.
//!
//! The library shapes the inputs of the proof system and interprets what it
//! reports: it builds the hash table and the circuit instance, decides which
//! step of the pipeline comes next, and sorts failures into the run's error
//! taxonomy. The proof system itself is called by the program around it.

pub mod backend;
pub mod circuit;
pub mod config;
pub mod error;
pub mod laws;
pub mod pipeline;
pub mod table;
