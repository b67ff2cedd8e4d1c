//! Scaffolding generator for a feature-sliced frontend project layout.
//!
//! A slice is a named unit inside one of five fixed layers (page, widget,
//! feature, entity, shared). The library maps a layer and a slice name to a
//! canonical directory layout and produces a plan of filesystem operations:
//! the slice's root directory, one directory and one empty barrel file per
//! segment (`ui`, `model`, `lib`, `api`), and a root barrel file that
//! re-exports each segment. A caller executes the plan against the real
//! filesystem and reports failures with the typed errors defined here.

pub mod cli;
pub mod layers;
pub mod plan;
