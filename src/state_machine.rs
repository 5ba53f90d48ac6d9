//! The mode state machine as the controller consults it.
use vstd::prelude::*;
use crate::control::Controller;
use crate::mode::{Mode, transition_allowed, is_transition_allowed};

verus! {

/// Whether the controller may move from its current mode to `mode`.
pub fn check_state(controller: &mut Controller, mode: Mode) -> (r: bool)
    ensures
        r == transition_allowed(old(controller).mode, mode),
        *final(controller) == *old(controller),
{
    is_transition_allowed(controller.mode, mode)
}

} // verus!
