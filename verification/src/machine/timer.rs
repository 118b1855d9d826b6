use vstd::prelude::*;

verus! {

/// The timer: the divider (DIV, 0xFF04), the counter (TIMA, 0xFF05), its reload value
/// (TMA, 0xFF06) and its control register (TAC, 0xFF07), driven by a count of clock ticks.
pub struct Timer {
    div: u8,
    tima: u8,
    tma: u8,
    tac: u8,
    tick_count: u64,
}

pub ghost struct TimerView {
    pub div: u8,
    pub tima: u8,
    pub tma: u8,
    pub tac: u8,
    pub tick_count: u64,
}

/// The addresses at which the timer registers are mapped.
pub open spec fn is_timer_address(address: u16) -> bool {
    0xFF04 <= address <= 0xFF07
}

/// The number of clock ticks between two increments of TIMA for the clock select bits of TAC.
pub open spec fn timer_period(tac: u8) -> u64 {
    if tac & 0b11 == 0 {
        1024
    } else if tac & 0b11 == 1 {
        16
    } else if tac & 0b11 == 2 {
        64
    } else {
        256
    }
}

impl TimerView {
    pub open spec fn initial() -> TimerView {
        TimerView { div: 0, tima: 0, tma: 0, tac: 0, tick_count: 0 }
    }

    pub open spec fn read_spec(self, address: u16) -> u8 {
        if address == 0xFF04 {
            self.div
        } else if address == 0xFF05 {
            self.tima
        } else if address == 0xFF06 {
            self.tma
        } else {
            self.tac
        }
    }

    /// A write to DIV resets it to 0 whatever the value; the other registers take the value.
    pub open spec fn write_spec(self, address: u16, value: u8) -> TimerView {
        if address == 0xFF04 {
            TimerView { div: 0, ..self }
        } else if address == 0xFF05 {
            TimerView { tima: value, ..self }
        } else if address == 0xFF06 {
            TimerView { tma: value, ..self }
        } else {
            TimerView { tac: value, ..self }
        }
    }

    /// Bit 2 of TAC enables TIMA.
    pub open spec fn enabled(self) -> bool {
        (self.tac >> 2) & 1 == 1
    }

    /// One clock tick: the tick count advances (modulo 2^64); DIV advances every 256 ticks;
    /// when enabled, TIMA advances every `timer_period` ticks and, when it overflows, is
    /// reloaded from TMA and an interrupt is requested (the boolean).
    pub open spec fn cycle_spec(self) -> (TimerView, bool) {
        let ticks = ((self.tick_count as int + 1) % 0x1_0000_0000_0000_0000) as u64;
        let div = if ticks % 256 == 0 { ((self.div as int + 1) % 256) as u8 } else { self.div };
        let counted = TimerView { div, tick_count: ticks, ..self };
        if self.enabled() && ticks % timer_period(self.tac) == 0 {
            if self.tima == 0xFF {
                (TimerView { tima: self.tma, ..counted }, true)
            } else {
                (TimerView { tima: (self.tima + 1) as u8, ..counted }, false)
            }
        } else {
            (counted, false)
        }
    }
}

/// A tick requests the timer interrupt only when the timer is enabled and TIMA overflows, and
/// then TIMA takes the reload value; a disabled timer leaves TIMA as it is.
pub proof fn lemma_timer_interrupt(timer: TimerView)
    ensures
        timer.cycle_spec().1 ==> timer.enabled() && timer.tima == 0xFF && timer.cycle_spec().0.tima
            == timer.tma,
        !timer.enabled() ==> !timer.cycle_spec().1 && timer.cycle_spec().0.tima == timer.tima,
        timer.cycle_spec().0.tma == timer.tma && timer.cycle_spec().0.tac == timer.tac,
{
}

/// With TAC bit 2 set, TIMA advances on the tick that brings the tick count to a multiple of
/// 1024, 16, 64 or 256 for the clock select values 0, 1, 2 and 3 of TAC's low bits, passing
/// from 0xFF to the reload value TMA and requesting the interrupt then; on every other tick,
/// and on every tick while TAC bit 2 is clear, TIMA keeps its value.
pub proof fn lemma_timer_rate(timer: TimerView)
    ensures
        ({
            let ticks = (timer.tick_count + 1) % 0x1_0000_0000_0000_0000;
            let select = timer.tac & 0b11;
            let period: int = if select == 0 {
                1024
            } else if select == 1 {
                16
            } else if select == 2 {
                64
            } else {
                256
            };
            let due = (timer.tac >> 2u8) & 1 == 1 && ticks % period == 0;
            let (after, interrupt) = timer.cycle_spec();
            &&& after.tima == (if due {
                if timer.tima == 0xFF {
                    timer.tma
                } else {
                    (timer.tima + 1) as u8
                }
            } else {
                timer.tima
            })
            &&& interrupt == (due && timer.tima == 0xFF)
        }),
{
}

impl View for Timer {
    type V = TimerView;

    closed spec fn view(&self) -> TimerView {
        TimerView {
            div: self.div,
            tima: self.tima,
            tma: self.tma,
            tac: self.tac,
            tick_count: self.tick_count,
        }
    }
}

impl Timer {
    pub fn new() -> (timer: Self)
        ensures
            timer@ == TimerView::initial(),
    {
        Self { div: 0, tima: 0, tma: 0, tac: 0, tick_count: 0 }
    }

    pub fn read(&self, address: u16) -> (value: u8)
        requires
            is_timer_address(address),
        ensures
            value == self@.read_spec(address),
    {
        match address {
            0xFF04 => self.div,
            0xFF05 => self.tima,
            0xFF06 => self.tma,
            _ => self.tac,
        }
    }

    pub fn write(&mut self, address: u16, value: u8)
        requires
            is_timer_address(address),
        ensures
            final(self)@ == old(self)@.write_spec(address, value),
    {
        match address {
            0xFF04 => self.div = 0,
            0xFF05 => self.tima = value,
            0xFF06 => self.tma = value,
            _ => self.tac = value,
        }
    }

    /// Advances the timer by one clock tick; returns whether a timer interrupt is requested.
    pub fn cycle(&mut self) -> (interrupt: bool)
        ensures
            (final(self)@, interrupt) == old(self)@.cycle_spec(),
    {
        self.tick_count = self.tick_count.wrapping_add(1);

        if self.tick_count % 256 == 0 {
            self.div = self.div.wrapping_add(1);
        }

        let enabled = (self.tac >> 2) & 1 == 1;
        let frequency: u64 = match self.tac & 0b00000011 {
            0b00 => 256,
            0b01 => 4,
            0b10 => 16,
            _ => 64,
        } * 4;

        if enabled && self.tick_count % frequency == 0 {
            if self.tima == 0xFF {
                self.tima = self.tma;
                return true;
            } else {
                self.tima += 1;
            }
        }

        false
    }
}

} // verus!
