//! Binding generation for Node.js native addons, and the project tooling
//! around it.
//!
//! The generator turns a [`descriptor::FunctionDescriptor`] into the
//! structured code of [`emit`]: argument marshalling ([`marshal`]), receiver
//! resolution, return assembly and registration ([`dispatch`]). [`semantics`]
//! says what the generated entry point does when called, and [`laws`] proves
//! properties of it. The tooling side reads target triples ([`target`]),
//! derives names ([`names`]), and plans project creation ([`new_project`])
//! and builds ([`build_plan`]).
use vstd::prelude::*;

pub mod build_plan;
pub mod descriptor;
pub mod dispatch;
pub mod emit;
pub mod laws;
pub mod marshal;
pub mod names;
pub mod new_project;
pub mod semantics;
pub mod target;
pub mod text;

verus! {

} // verus!
