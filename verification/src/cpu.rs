use vstd::prelude::*;

verus! {

/// Whether the CPU executes instructions, waits for an interrupt, or is stopped.
#[derive(Clone, Copy, Debug, PartialEq, Eq, Structural)]
pub enum CpuMode {
    Running,
    Halted,
    Stopped,
}

impl Default for CpuMode {
    fn default() -> (mode: Self)
        ensures
            mode == CpuMode::Running,
    {
        CpuMode::Running
    }
}

impl CpuMode {
    /// A loaded cartridge starts with the CPU running.
    pub fn reset_for_rom_load(&mut self)
        ensures
            *final(self) == CpuMode::Running,
    {
        *self = CpuMode::Running;
    }
}

/// The CPU register file.
#[derive(Clone, Copy, Debug)]
pub struct CpuRegisters {
    pub pc: u32,
    pub sp: u32,
    pub a: u8,
    pub f: u8,
    pub b: u8,
    pub c: u8,
    pub d: u8,
    pub e: u8,
    pub h: u8,
    pub l: u8,
    pub ime: bool,
    pub ime_enable_delay: u8,
    pub halt_bug: bool,
}

impl CpuRegisters {
    /// The state that `default` gives.
    pub open spec fn is_default(&self) -> bool {
        &&& self.pc == 0 && self.sp == 0
        &&& self.a == 0 && self.f == 0 && self.b == 0 && self.c == 0
        &&& self.d == 0 && self.e == 0 && self.h == 0 && self.l == 0
        &&& !self.ime && self.ime_enable_delay == 0 && !self.halt_bug
    }
}

impl Default for CpuRegisters {
    fn default() -> (registers: Self)
        ensures
            registers.is_default(),
    {
        CpuRegisters {
            pc: 0,
            sp: 0,
            a: 0,
            f: 0,
            b: 0,
            c: 0,
            d: 0,
            e: 0,
            h: 0,
            l: 0,
            ime: false,
            ime_enable_delay: 0,
            halt_bug: false,
        }
    }
}

impl CpuRegisters {
    /// Loads the register values that the boot ROM hands over; the accumulator is left as it is.
    pub fn reset_for_rom_load(&mut self)
        ensures
            final(self).pc == 0x0100,
            final(self).sp == 0xfffe,
            final(self).a == old(self).a,
            final(self).f == 0xb0,
            final(self).b == 0x00,
            final(self).c == 0x13,
            final(self).d == 0x00,
            final(self).e == 0xd8,
            final(self).h == 0x01,
            final(self).l == 0x4d,
            !final(self).ime,
            final(self).ime_enable_delay == 0,
            !final(self).halt_bug,
    {
        self.pc = 0x0100;
        self.sp = 0xfffe;
        self.f = 0xb0;
        self.b = 0x00;
        self.c = 0x13;
        self.d = 0x00;
        self.e = 0xd8;
        self.h = 0x01;
        self.l = 0x4d;
        self.ime = false;
        self.ime_enable_delay = 0;
        self.halt_bug = false;
    }
}

/// Clock bookkeeping of the CPU and its timer.
#[derive(Clone, Copy, Debug)]
pub struct CpuTiming {
    pub clocks_acc: i32,
    pub clock_frequency_hz: i64,
    pub system_counter: u16,
    pub tima_reload_delay: u8,
    pub tima_reload_active: bool,
}

impl CpuTiming {
    /// The state that `default` gives.
    pub open spec fn is_default(&self) -> bool {
        &&& self.clocks_acc == 0
        &&& self.clock_frequency_hz == 1
        &&& self.system_counter == 0
        &&& self.tima_reload_delay == 0
        &&& !self.tima_reload_active
    }
}

impl Default for CpuTiming {
    fn default() -> (timing: Self)
        ensures
            timing.is_default(),
    {
        CpuTiming {
            clocks_acc: 0,
            clock_frequency_hz: 1,
            system_counter: 0,
            tima_reload_delay: 0,
            tima_reload_active: false,
        }
    }
}

impl CpuTiming {
    /// Clears the clock counters for a new cartridge; the clock frequency is kept.
    pub fn reset_for_rom_load(&mut self)
        ensures
            final(self).clocks_acc == 0,
            final(self).clock_frequency_hz == old(self).clock_frequency_hz,
            final(self).system_counter == 0,
            final(self).tima_reload_delay == 0,
            !final(self).tima_reload_active,
    {
        self.clocks_acc = 0;
        self.system_counter = 0;
        self.tima_reload_delay = 0;
        self.tima_reload_active = false;
    }
}

/// State of the serial port.
#[derive(Clone, Copy, Debug)]
pub struct SerialState {
    pub request: bool,
    pub is_transferring: bool,
    pub clock_is_external: bool,
    pub timer: i32,
}

impl SerialState {
    /// The state that `default` gives.
    pub open spec fn is_default(&self) -> bool {
        &&& !self.request && !self.is_transferring && !self.clock_is_external
        &&& self.timer == 0
    }
}

impl Default for SerialState {
    fn default() -> (serial: Self)
        ensures
            serial.is_default(),
    {
        SerialState { request: false, is_transferring: false, clock_is_external: false, timer: 0 }
    }
}

impl SerialState {
    /// A loaded cartridge starts with no serial transfer.
    pub fn reset_for_rom_load(&mut self)
        ensures
            !final(self).request,
            !final(self).is_transferring,
            !final(self).clock_is_external,
            final(self).timer == 0,
    {
        self.request = false;
        self.is_transferring = false;
        self.clock_is_external = false;
        self.timer = 0;
    }
}

} // verus!
