//! The logic of the command-line tools around the core: their option
//! parsers, the stress runner's input generator and run, the AccuracyCoin
//! probe's result tally and nametable dump, and the ROM-suite runner's suite
//! reader, test filter and frame hashes.

pub mod args;
pub mod probe;
pub mod stress;
pub mod suite;
pub mod text;
pub mod xml;
