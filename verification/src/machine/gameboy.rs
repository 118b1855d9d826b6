use vstd::prelude::*;
use crate::machine::bus::{Bus, BusView, initial_bus};
use crate::machine::cartridge::Cartridge;
use crate::machine::cpu::{self, Cpu, CpuView, Machine, next_bytes, step_spec};
use crate::machine::interrupts::Interrupts;
use crate::machine::joypad::{JoypadState, JoypadView};
use crate::machine::registers::Registers;

verus! {

/// The whole console: processor, bus, and a cycle counter.
pub struct Gameboy {
    cpu: Cpu,
    bus: Bus,
    cycle_count: u64,
}

pub ghost struct GameboyView {
    pub cpu: CpuView,
    pub bus: BusView,
    pub cycle_count: u64,
}

/// What one step of the console did: the instruction that the processor ran, if it ran one.
#[derive(Debug, Clone, Copy)]
pub struct CycleInfo {
    pub cpu_cycle_info: Option<cpu::CycleInfo>,
}

/// One clock tick of the timer and the graphics unit; their interrupt requests set bit 2 (timer)
/// and bit 0 (vertical blank) of IF.
pub open spec fn tick_spec(bus: BusView) -> BusView {
    let (timer, timer_interrupt) = bus.timer.cycle_spec();
    let flag1 = if timer_interrupt { bus.interrupts.flag | 0b100 } else { bus.interrupts.flag };
    let (graphics, graphics_interrupt) = bus.graphics.cycle_spec();
    let flag2 = if graphics_interrupt { flag1 | 1 } else { flag1 };
    BusView { timer, graphics, interrupts: Interrupts { flag: flag2, ..bus.interrupts }, ..bus }
}

/// `n` clock ticks.
pub open spec fn ticks_spec(bus: BusView, n: nat) -> BusView
    decreases n,
{
    if n == 0 {
        bus
    } else {
        tick_spec(ticks_spec(bus, (n - 1) as nat))
    }
}

/// The console at power-on with `boot_rom` mapped and no cartridge.
pub open spec fn initial_gameboy(boot_rom: Seq<u8>) -> GameboyView {
    GameboyView { cpu: CpuView::initial(), bus: initial_bus(boot_rom), cycle_count: 0 }
}

impl GameboyView {
    pub open spec fn machine(self) -> Machine {
        Machine::of(self.cpu, self.bus)
    }

    /// The number of machine cycles that the next step takes (1 for STOP and HALT).
    pub open spec fn step_cycles(self) -> nat {
        match step_spec(self.machine()).1 {
            Some(c) => c as nat,
            None => 1,
        }
    }

    /// The console after one step: the processor runs one instruction, then the timer and the
    /// graphics unit run four clock ticks per machine cycle.
    pub open spec fn step(self) -> GameboyView {
        let m = step_spec(self.machine()).0;
        GameboyView { cpu: m.cpu, bus: ticks_spec(m.bus, 4 * self.step_cycles()), ..self }
    }

    /// A frame is ready while the graphics unit is in the vertical blank (mode 1).
    pub open spec fn frame_ready(self) -> bool {
        self.bus.graphics.mode() == 1
    }
}

/// What a step taken from `before` reports: the instruction that ran (its cycles, bytes and
/// address, the next instruction's bytes and address, and the registers after it), or nothing
/// for STOP and HALT.
pub open spec fn reports_step(info: CycleInfo, before: GameboyView) -> bool {
    let (m, cycles) = step_spec(before.machine());
    match info.cpu_cycle_info {
        Some(i) => {
            &&& cycles == Some(i.cycle_count)
            &&& i.opcode_bytes@ == next_bytes(before.machine())
            &&& i.opcode_address == before.cpu.registers.pc
            &&& i.next_opcode_bytes@ == next_bytes(m)
            &&& i.next_opcode_address == m.cpu.registers.pc
            &&& i.registers == m.cpu.registers
        },
        None => cycles is None,
    }
}

impl View for Gameboy {
    type V = GameboyView;

    closed spec fn view(&self) -> GameboyView {
        GameboyView { cpu: self.cpu@, bus: self.bus@, cycle_count: self.cycle_count }
    }
}

impl Gameboy {
    /// The console at power-on, with `boot_rom` mapped at 0x0000.
    pub fn new(boot_rom: [u8; 256]) -> (gameboy: Self)
        ensures
            gameboy@ == initial_gameboy(boot_rom@),
            gameboy@.bus.inv(),
    {
        Self { cpu: Cpu::new(), bus: Bus::new(boot_rom), cycle_count: 0 }
    }

    /// Powers the console off and on again: everything is reset except the cartridge and the
    /// boot ROM.
    pub fn restart(&mut self)
        requires
            old(self)@.bus.inv(),
        ensures
            final(self)@ == (GameboyView {
                bus: BusView { cartridge: old(self)@.bus.cartridge, ..initial_bus(old(self)@.bus.boot_rom) },
                ..initial_gameboy(old(self)@.bus.boot_rom)
            }),
            final(self)@.bus.inv(),
    {
        let cartridge = self.bus.cartridge.take();
        let boot_rom = self.bus.boot_rom;

        self.cpu = Cpu::new();
        self.bus = Bus::new(boot_rom);
        self.cycle_count = 0;

        self.bus.cartridge = cartridge;
        proof {
            assert(self@.bus =~= BusView { cartridge: old(self)@.bus.cartridge, ..initial_bus(old(self)@.bus.boot_rom) });
        }
    }

    pub fn load_cartridge(&mut self, cartridge: Cartridge)
        requires
            old(self)@.bus.inv(),
            cartridge@.inv(),
        ensures
            final(self)@ == (GameboyView {
                bus: BusView { cartridge: Some(cartridge@), ..old(self)@.bus },
                ..old(self)@
            }),
            final(self)@.bus.inv(),
    {
        self.bus.cartridge = Some(cartridge);
    }

    pub fn unload_cartridge(&mut self)
        requires
            old(self)@.bus.inv(),
        ensures
            final(self)@ == (GameboyView {
                bus: BusView { cartridge: None, ..old(self)@.bus },
                ..old(self)@
            }),
            final(self)@.bus.inv(),
    {
        self.bus.cartridge = None;
    }

    /// Runs one instruction, then four clock ticks of the timer and the graphics unit for each
    /// of its machine cycles (one machine cycle for STOP and HALT).
    pub fn cycle(&mut self) -> (info: CycleInfo)
        requires
            old(self)@.bus.inv(),
        ensures
            final(self)@ == old(self)@.step(),
            reports_step(info, old(self)@),
            final(self)@.bus.inv(),
    {
        let cpu_cycle_info = self.cpu.cycle(&mut self.bus);

        let c_cycle_count: u8 = if let Some(cycle_info) = cpu_cycle_info {
            cycle_info.cycle_count
        } else {
            1
        } * 4;

        let ghost after_cpu = self.bus@;
        let ghost cpu_after = self.cpu@;
        let mut i: u8 = 0;
        while i < c_cycle_count
            invariant
                0 <= i <= c_cycle_count,
                self.cpu@ == cpu_after,
                self.cycle_count == old(self).cycle_count,
                self.bus@.inv(),
                self.bus@ == ticks_spec(after_cpu, i as nat),
            decreases c_cycle_count - i,
        {
            let timer_interrupt = self.bus.timer.cycle();

            if timer_interrupt {
                self.bus.interrupts.flag |= 1 << 2;
                assert(1u8 << 2u8 == 0b100) by (bit_vector);
            }

            let graphics_interrupt = self.bus.graphics.cycle();

            if graphics_interrupt {
                self.bus.interrupts.flag |= 1;
            }
            i += 1;
        }

        CycleInfo { cpu_cycle_info }
    }

    pub fn get_pixels(&self) -> (pixels: [u8; 23040])
        ensures
            pixels@ == self@.bus.graphics.pixels,
    {
        self.bus.graphics.pixels()
    }

    pub fn get_registers(&self) -> (registers: Registers)
        ensures
            registers == self@.cpu.registers,
    {
        self.cpu.registers()
    }

    /// The three bytes at PC and PC itself.
    pub fn get_next_opcode(&mut self) -> (next: ([u8; 3], u16))
        requires
            old(self)@.bus.inv(),
        ensures
            next.0@ == next_bytes(old(self)@.machine()),
            next.1 == old(self)@.cpu.registers.pc,
            final(self)@ == old(self)@,
    {
        self.cpu.get_next_opcode(&mut self.bus)
    }

    /// A frame is ready while the graphics unit is in the vertical blank (mode 1).
    pub fn frame_ready(&self) -> (ready: bool)
        ensures
            ready == self@.frame_ready(),
    {
        self.bus.graphics.get_mode() == 1
    }

    pub fn update_joypad_state(&mut self, state: JoypadState)
        requires
            old(self)@.bus.inv(),
        ensures
            final(self)@ == (GameboyView {
                bus: BusView {
                    joypad: JoypadView { buttons: state, ..old(self)@.bus.joypad },
                    ..old(self)@.bus
                },
                ..old(self)@
            }),
            final(self)@.bus.inv(),
    {
        self.bus.joypad.set_state(state);
    }
}

} // verus!
