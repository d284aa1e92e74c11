//! Button views: pressable containers the host engine's interaction system
//! picks up.

pub mod h_button;
pub mod text_button;
pub mod v_button;

use vstd::prelude::*;

verus! {

/// The marker that makes the host engine treat an entity as a pressable
/// button.
#[derive(Debug, Clone, Copy, PartialEq, Eq)]
pub struct Button;

} // verus!
