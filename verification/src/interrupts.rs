use vstd::prelude::*;

verus! {

/// A passive pair of interrupt enable and interrupt flag registers: they read 0 and
/// ignore writes.
pub struct Interrupts {
    pub enabled: u8,
    flags: u8,
}

pub ghost struct InterruptsView {
    pub enabled: u8,
    pub flags: u8,
}

impl View for Interrupts {
    type V = InterruptsView;

    closed spec fn view(&self) -> InterruptsView {
        InterruptsView { enabled: self.enabled, flags: self.flags }
    }
}

impl Interrupts {
    pub fn new() -> (interrupts: Self)
        ensures
            interrupts@ == (InterruptsView { enabled: 0, flags: 0 }),
    {
        Self { enabled: 0, flags: 0 }
    }

    pub fn read(&self) -> (value: u8)
        ensures
            value == 0,
    {
        0
    }

    pub fn write(&mut self, value: u8)
        ensures
            final(self)@ == old(self)@,
    {
    }

    /// Looks at each of the five interrupts, enabled and requested; nothing is dispatched.
    pub fn handle(&mut self)
        ensures
            final(self)@ == old(self)@,
    {
        let mut i: u8 = 0;
        while i < 5
            invariant
                i <= 5,
                self@ == old(self)@,
            decreases 5 - i,
        {
            let enabled = (self.enabled >> i) & 1 == 1;
            let requested = (self.flags >> i) & 1 == 1;

            if enabled && requested {
            }
            i += 1;
        }
    }
}

} // verus!
