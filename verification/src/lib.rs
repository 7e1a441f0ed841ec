//! DreamChecker: the procedure-body analyzer of a static typechecker for
//! DreamMaker. Given the statements of one procedure, already parsed and with
//! every class path resolved against the class hierarchy, it estimates the
//! shape of the value that each expression produces.

pub mod analysis;
pub mod analyzer;
pub mod ast;
pub mod census;
pub mod class;
pub mod diagnostic;
pub mod driver;
pub mod environment;
pub mod lattice;
pub mod laws;
pub mod model;
pub mod rules;
