use vstd::prelude::*;

verus! {

/// Relative virtual addresses, within the game executable, of the native
/// objects this library names. Which table applies depends on the game
/// version that is running, so callers look it up at run time and pass it in.
pub struct RvaBundle {
    /// `CS::TitleStep` vtable.
    pub title_step_vmt: u32,
    /// `CS::TitleStep` stepper state table.
    pub title_step_state_table: u32,
}

} // verus!
