//! Plain data types for one invocation: the parsed command line as the
//! library sees it, free of any argument-parsing machinery.

use vstd::prelude::*;
use crate::layers::Layers;

verus! {

/// A full invocation: an optional bare name, an optional config file path
/// (accepted but never consulted by the generation core), and the selected
/// subcommand.
#[derive(Debug, Clone)]
pub struct Cli {
    pub name: Option<String>,
    pub config: Option<String>,
    pub command: Option<Commands>,
}

/// The available subcommands.
#[derive(Debug, Clone)]
pub enum Commands {
    /// Creates a new item in a layer.
    New(NewArgs),
}

/// Arguments of the `new` subcommand: the layer to create a slice in.
#[derive(Debug, Clone)]
pub struct NewArgs {
    pub layer: Option<Layers>,
}

} // verus!
