//! The uninstall subcommand's data: its (empty) argument set.
use vstd::prelude::*;

verus! {

/// Arguments of the uninstall subcommand.
#[derive(Debug)]
pub struct Uninstall {}

} // verus!
