use vstd::prelude::*;

verus! {

/// Native debug-menu node used by FD4 debug menu registration helpers.
///
/// Debug-registration helpers store pointers to objects whose first qword is a
/// debug-menu vtable. Only the vtable header is modeled here because callers
/// retain the node as a handle.
pub struct FD4DebugMenuNode {
    pub vtable: usize,
}

} // verus!
