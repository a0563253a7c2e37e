use vstd::prelude::*;

pub mod text;
pub mod detect;
pub mod install;
pub mod progress;
pub mod privileged;
pub mod launcher;
pub mod gui;

verus! {

} // verus!
