//! Lifecycle of an Office add-in manifest across the Office host applications
//! of one machine: host and manifest detection, manifest validation, and the
//! install / uninstall step machines whose I/O is performed by the caller.
use vstd::prelude::*;

pub mod errors;
pub mod install;
pub mod laws;
pub mod registry;
pub mod status;
pub mod text;
pub mod uninstall;

verus! {

} // verus!
