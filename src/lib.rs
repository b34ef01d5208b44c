//! Procedural structure generation: the data model of recursive structure
//! descriptions and how ownership flows through them, import bookkeeping
//! and cycle detection, expansion of structures into spawn requests, noise
//! scatter selection, settling of spawned subtrees, the control flow of path
//! requests, and the multi-pass generation state machine.
use vstd::prelude::*;

pub mod expand;
pub mod generation;
pub mod importer;
pub mod ownership;
pub mod paths;
pub mod random;
pub mod scatter;
pub mod stabilize;
pub mod structure;
pub mod tags;

verus! {

} // verus!
