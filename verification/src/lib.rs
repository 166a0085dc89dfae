use vstd::prelude::*;

pub mod cpu;

use crate::cpu::cpu::{CPU, CpuState, initial_state};

verus! {

/// Screen width in pixels (20 tiles).
pub const SCREEN_WIDTH: usize = 160;
/// Screen height in pixels (18 tiles).
pub const SCREEN_HEIGHT: usize = 144;

/// Number of input keys.
pub const NUM_KEYS: usize = 10;

/// The console: the state of its keys and its CPU.
pub struct GBoy {
    keys: [u8; NUM_KEYS],
    cpu: CPU,
}

/// The state of a console right after power-on: no key pressed and the CPU
/// in its initial state.
pub open spec fn power_on_state() -> (Seq<u8>, CpuState) {
    (Seq::new(NUM_KEYS as nat, |i: int| 0u8), initial_state())
}

impl View for GBoy {
    type V = (Seq<u8>, CpuState);

    /// The key states and the CPU state.
    closed spec fn view(&self) -> (Seq<u8>, CpuState) {
        (self.keys@, self.cpu@)
    }
}

impl GBoy {
    pub fn new() -> (g: GBoy)
        ensures
            g@ == power_on_state(),
    {
        let g = GBoy { keys: [0u8; NUM_KEYS], cpu: CPU::new() };
        assert(g.keys@ =~= Seq::new(NUM_KEYS as nat, |i: int| 0u8));
        g
    }

    /// Puts the console back in its power-on state.
    pub fn reset(&mut self)
        ensures
            final(self)@ == power_on_state(),
    {
        self.keys = [0u8; NUM_KEYS];
        self.cpu = CPU::new();
        assert(self.keys@ =~= Seq::new(NUM_KEYS as nat, |i: int| 0u8));
    }
}

} // verus!
