//! Menu accelerator updates, as the host menu registry takes them.

use vstd::prelude::*;

verus! {

/// One requested change: bind the menu item `id` to `accelerator`, or
/// clear its binding when `accelerator` is absent.
#[derive(Debug)]
pub struct MenuAcceleratorUpdate {
    /// The menu item the change addresses.
    pub id: String,
    /// The accelerator to bind, or `None` to clear the binding.
    pub accelerator: Option<String>,
}

/// Accept a batch of accelerator updates. The registry takes every
/// batch; the call always succeeds.
pub fn menu_set_accelerators(updates: Vec<MenuAcceleratorUpdate>) -> (r: Result<(), String>)
    ensures
        r is Ok,
{
    let _ = updates;
    Ok(())
}

} // verus!
