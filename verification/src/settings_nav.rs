//! Whether a Settings navbar item shows in the current scope.

use vstd::prelude::*;

verus! {

/// Whether an item is visible: it is flagged `always_global`, or its scope
/// mask intersects the current scope.
pub fn item_visible(item_scopes_mask: u32, current_scope_mask: u32, always_global: bool) -> (r: bool)
    ensures
        r == (always_global || (item_scopes_mask & current_scope_mask) != 0),
{
    always_global || (item_scopes_mask & current_scope_mask) != 0
}

} // verus!
