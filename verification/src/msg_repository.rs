use vstd::prelude::*;

verus! {

/// Native `CS::MsgRepositoryImp` singleton prefix.
///
/// Source of name: singleton symbol. Only the known vtable prefix is
/// modeled; the remaining native object tail is not modeled until its field
/// layout is reversed.
pub struct MsgRepositoryImp {
    pub vftable: usize,
}

} // verus!
