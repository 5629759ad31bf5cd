//! Random input injected for the idle player, to provoke rollbacks when
//! testing locally.
use vstd::prelude::*;

verus! {

/// Whether the idle player injects random inputs.
#[derive(Copy, Clone, PartialEq, Eq, Debug, Default, Hash)]
pub struct RandomInput {
    pub on: bool,
}

/// Turns random input on when `r_pressed` and off when `t_pressed`; when both
/// keys went down, off wins.
pub fn toggle_random_input(random: &mut RandomInput, r_pressed: bool, t_pressed: bool)
    ensures
        final(random).on == if t_pressed {
            false
        } else if r_pressed {
            true
        } else {
            old(random).on
        },
{
    if r_pressed {
        *random = RandomInput { on: true };
    }
    if t_pressed {
        *random = RandomInput { on: false };
    }
}

} // verus!
