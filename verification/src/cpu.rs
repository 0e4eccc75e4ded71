//! The 6502-family CPU: register file, instruction decode and execution,
//! interrupt service, and the bus it drives.

use vstd::prelude::*;

pub mod memory;
pub mod opcode;
pub mod status;

use crate::bus::Bus;
use opcode::{opcode_lookup, AddressingMode, Instruction};
use status::{
    StatusReg, BREAK_COMMAND, CARRY_FLAG, DECIMAL_MODE, INTERRUPT_DISABLE, NEGATIVE_FLAG,
    ONE_FLAG, OVERFLOW_FLAG, ZERO_FLAG,
};

verus! {

pub const PC_START_ADDR: u16 = 0x8000;
pub const NON_MASKABLE_INTER_HNDLER_ADDR: u16 = 0xFFFA;
pub const RESET_LOCATION: u16 = 0xFFFC;
pub const BRK_INTR_HANDLER_ADDR: u16 = 0xFFFE;
pub const STACK_ADDR: u16 = 0x0100;
pub const RESET_STACK_POINTER: u8 = 0xFD;

/// Whether flag `f` is set in status byte `s`.
pub open spec fn flag_set(s: u8, f: u8) -> bool {
    s & f != 0
}

/// The status byte after the zero and negative flags follow a value.
pub open spec fn spec_update_zn(st: u8, v: u8) -> u8 {
    let s1 = if v == 0 {
        st | ZERO_FLAG
    } else {
        st & !ZERO_FLAG
    };
    if v >= 0x80 {
        s1 | NEGATIVE_FLAG
    } else {
        s1 & !NEGATIVE_FLAG
    }
}


/// The machine state a straight-line program in plain memory can observe:
/// the register file, the 2 KiB of RAM and the program-ROM. The PPU and APU
/// run alongside but such a program never reads them back.
pub ghost struct CoreState {
    pub accumulator: u8,
    pub indx_reg_x: u8,
    pub indx_reg_y: u8,
    pub stack_pointer: u8,
    pub status: u8,
    pub program_counter: u16,
    pub ram: Seq<u8>,
    pub prg: Seq<u8>,
}

/// The core-state projection of the full machine.
pub open spec fn spec_core(c: CPU6502) -> CoreState {
    CoreState {
        accumulator: c.accumulator,
        indx_reg_x: c.indx_reg_x,
        indx_reg_y: c.indx_reg_y,
        stack_pointer: c.stack_pointer,
        status: c.status_reg.status,
        program_counter: c.program_counter,
        ram: c.bus.cpu_vram@,
        prg: c.bus.prg_rom@,
    }
}

/// The byte a core-state address holds: RAM below the port window, ROM on
/// top; port addresses are outside the interpreted class.
pub open spec fn core_byte(s: CoreState, addr: u16) -> u8 {
    if addr < 0x2000 {
        s.ram[(addr & 0x7FF) as int]
    } else {
        crate::bus::spec_prg_byte(s.prg, addr)
    }
}

/// The little-endian word two consecutive core-state bytes hold.
pub open spec fn core_word(s: CoreState, pos: u16) -> int {
    core_byte(s, pos) + core_byte(s, (pos + 1) as u16) * 0x100
}

/// The effect of one interpreted instruction, with `s.program_counter`
/// already past the opcode byte; `None` where the opcode is outside the
/// interpreted class. The second component is whether the instruction was
/// the break.
pub open spec fn spec_exec_op(s: CoreState, op: u8) -> Option<(CoreState, bool)> {
    let pc = s.program_counter;
    if op == 0xA9 {
        Some((CoreState { program_counter: (pc + 1) as u16, ..spec_core_loaded_a(s, core_byte(s, pc)) }, false))
    } else if op == 0xA2 {
        Some((CoreState {
            indx_reg_x: core_byte(s, pc),
            status: spec_update_zn(s.status, core_byte(s, pc)),
            program_counter: (pc + 1) as u16,
            ..s
        }, false))
    } else if op == 0xA0 {
        Some((CoreState {
            indx_reg_y: core_byte(s, pc),
            status: spec_update_zn(s.status, core_byte(s, pc)),
            program_counter: (pc + 1) as u16,
            ..s
        }, false))
    } else if op == 0xA5 {
        Some((CoreState {
            program_counter: (pc + 1) as u16,
            ..spec_core_loaded_a(s, core_byte(s, core_byte(s, pc) as u16))
        }, false))
    } else if op == 0x85 {
        Some((CoreState {
            ram: s.ram.update(core_byte(s, pc) as int, s.accumulator),
            program_counter: (pc + 1) as u16,
            ..s
        }, false))
    } else if op == 0xAA {
        Some((CoreState {
            indx_reg_x: s.accumulator,
            status: spec_update_zn(s.status, s.accumulator),
            ..s
        }, false))
    } else if op == 0xE8 {
        Some((CoreState {
            indx_reg_x: ((s.indx_reg_x + 1) % 256) as u8,
            status: spec_update_zn(s.status, ((s.indx_reg_x + 1) % 256) as u8),
            ..s
        }, false))
    } else if op == 0x6C {
        let ptr = core_word(s, pc) as u16;
        let addrs = spec_indirect_ptr_addrs(ptr);
        let target = (core_byte(s, addrs.0) + core_byte(s, addrs.1) * 0x100) as u16;
        let landed: u16 = if target == pc {
            (pc + 2) as u16
        } else {
            target
        };
        Some((CoreState { program_counter: landed, ..s }, false))
    } else if op == 0x00 {
        Some((CoreState {
            program_counter: (crate::bus::spec_prg_byte(s.prg, 0xFFFE) + crate::bus::spec_prg_byte(
                s.prg,
                0xFFFF,
            ) * 0x100) as u16,
            stack_pointer: ((s.stack_pointer - 3) % 256) as u8,
            status: s.status | INTERRUPT_DISABLE,
            ram: s.ram.update(
                0x100 + s.stack_pointer,
                (((pc + 1) as u16) >> 8) as u8,
            ).update(
                0x100 + (s.stack_pointer - 1) % 256,
                (((pc + 1) as u16) & 0xFF) as u8,
            ).update(0x100 + (s.stack_pointer - 2) % 256, status::spec_php_pushed(s.status)),
            ..s
        }, true))
    } else {
        None
    }
}

/// A value landing in the core-state accumulator.
pub open spec fn spec_core_loaded_a(s: CoreState, v: u8) -> CoreState {
    CoreState { accumulator: v, status: spec_update_zn(s.status, v), ..s }
}

/// Whether the interpreter covers the next instruction of `s`: the machine
/// is in plain memory with interrupts masked, and the opcode is one the
/// interpreter defines (an indirect jump also needs its pointer in plain
/// memory).
pub open spec fn spec_in_class(s: CoreState) -> bool {
    let op = core_byte(s, s.program_counter);
    &&& s.ram.len() == 0x800
    &&& s.status & INTERRUPT_DISABLE != 0
    &&& 0x8000 <= s.program_counter < 0xFFE0
    &&& spec_exec_op(CoreState { program_counter: (s.program_counter + 1) as u16, ..s }, op)
        is Some
    &&& (op == 0x6C ==> crate::bus::spec_pure_addr(
        core_word(CoreState { program_counter: (s.program_counter + 1) as u16, ..s }, (
        s.program_counter + 1) as u16) as u16,
    ))
}

/// One interpreted machine step: fetch at the program counter, then the
/// instruction's effect; `None` outside the interpreted class.
pub open spec fn spec_step_core(s: CoreState) -> Option<(CoreState, bool)> {
    if spec_in_class(s) {
        spec_exec_op(
            CoreState { program_counter: (s.program_counter + 1) as u16, ..s },
            core_byte(s, s.program_counter),
        )
    } else {
        None
    }
}

/// The interpreted machine after it halts at a break within `n` steps:
/// `None` when it does not halt in `n` steps or leaves the interpreted
/// class first.
pub open spec fn spec_run_core(s: CoreState, n: nat) -> Option<CoreState>
    decreases n,
{
    if n == 0 {
        None
    } else {
        match spec_step_core(s) {
            Option::None => None,
            Option::Some((s2, halt)) => if halt {
                Some(s2)
            } else {
                spec_run_core(s2, (n - 1) as nat)
            },
        }
    }
}

/// The CPU after a value lands in the accumulator: zero and negative
/// follow the value, everything else stays.
pub open spec fn spec_loaded_a(c: CPU6502, v: u8) -> CPU6502 {
    CPU6502 {
        accumulator: v,
        status_reg: StatusReg { status: spec_update_zn(c.status_reg.status, v) },
        ..c
    }
}

/// The CPU after a value lands in the X index register.
pub open spec fn spec_loaded_x(c: CPU6502, v: u8) -> CPU6502 {
    CPU6502 {
        indx_reg_x: v,
        status_reg: StatusReg { status: spec_update_zn(c.status_reg.status, v) },
        ..c
    }
}

/// The CPU after a value lands in the Y index register.
pub open spec fn spec_loaded_y(c: CPU6502, v: u8) -> CPU6502 {
    CPU6502 {
        indx_reg_y: v,
        status_reg: StatusReg { status: spec_update_zn(c.status_reg.status, v) },
        ..c
    }
}

/// The CPU: register file, sticky trap state, and the bus it owns.
pub struct CPU6502 {
    pub status_reg: StatusReg,
    pub program_counter: u16,
    pub stack_pointer: u8,
    pub accumulator: u8,
    pub indx_reg_x: u8,
    pub indx_reg_y: u8,
    pub page_crossed: bool,
    pub branch_taken: bool,
    pub trapped: bool,
    pub bus: Bus,
}

/// Setting flag `f` makes it read back set and leaves the other bits alone;
/// clearing it likewise.
proof fn lemma_flag_update(s: u8, f: u8)
    ensures
        (s | f) & f == f,
        f != 0 ==> flag_set(s | f, f),
        !flag_set(s & !f, f),
        (s | f) & !f == s & !f,
        (s & !f) & !f == s & !f,
{
    assert((s | f) & f == f && (s & !f) & f == 0 && (s | f) & !f == s & !f && (s & !f) & !f == s
        & !f) by (bit_vector);
}

/// When an update only touches the `f` bit, any flag disjoint from `f`
/// reads the same before and after.
proof fn lemma_flag_preserved(s1: u8, s2: u8, f: u8, g: u8)
    requires
        s2 & !f == s1 & !f,
        g & f == 0,
    ensures
        s2 & g == s1 & g,
        flag_set(s2, g) == flag_set(s1, g),
{
    assert((s2 & !f == s1 & !f && g & f == 0) ==> s2 & g == s1 & g) by (bit_vector);
}

/// When an update only touches the `f` and `g` bits, any flag disjoint
/// from both reads the same before and after.
proof fn lemma_flag_preserved2(s1: u8, s2: u8, f: u8, g: u8, h: u8)
    requires
        (s2 & !f) & !g == (s1 & !f) & !g,
        h & f == 0,
        h & g == 0,
    ensures
        s2 & h == s1 & h,
        flag_set(s2, h) == flag_set(s1, h),
{
    assert(((s2 & !f) & !g == (s1 & !f) & !g && h & f == 0 && h & g == 0) ==> s2 & h == s1 & h)
        by (bit_vector);
}

/// Two flag updates on disjoint flags leave each other's bit alone.
proof fn lemma_flag_disjoint(s: u8, f: u8, g: u8)
    requires
        f & g == 0,
    ensures
        flag_set(s | g, f) == flag_set(s, f),
        flag_set(s & !g, f) == flag_set(s, f),
        (s | g) & !f & !g == s & !f & !g,
        (s & !g) & !f & !g == s & !f & !g,
{
    assert(f & g == 0 ==> ((s | g) & f == s & f && (s & !g) & f == s & f && (s | g) & !f & !g == s
        & !f & !g && (s & !g) & !f & !g == s & !f & !g)) by (bit_vector);
}

impl CPU6502 {
    pub open spec fn wf(&self) -> bool {
        self.bus.wf()
    }

    pub fn new(bus: Bus) -> (r: Self)
        ensures
            bus.wf() ==> r.wf(),
            r.program_counter == PC_START_ADDR,
            r.stack_pointer == 0xFF,
            r.accumulator == 0 && r.indx_reg_x == 0 && r.indx_reg_y == 0,
            !r.trapped,
            r.bus == bus,
    {
        CPU6502 {
            status_reg: StatusReg::new(),
            program_counter: PC_START_ADDR,
            stack_pointer: 0xFF,
            accumulator: 0,
            indx_reg_x: 0,
            indx_reg_y: 0,
            page_crossed: false,
            branch_taken: false,
            trapped: false,
            bus,
        }
    }

    /// Places a program at the start of the program-ROM window and points
    /// the reset vector at it. The ROM is grown to a full 32 KiB window
    /// first if the cartridge brought less.
    pub fn load(&mut self, program: Vec<u8>)
        requires
            old(self).wf(),
            program@.len() <= 0x7FFC,
        ensures
            final(self).wf(),
            final(self).bus.prg_rom@.len() >= 0x8000,
            forall|i: int|
                0 <= i < program@.len() ==> final(self).bus.prg_rom@[i] == program@[i],
            final(self).bus.prg_rom@[0x7FFC] == 0x00,
            final(self).bus.prg_rom@[0x7FFD] == 0x80,
    {
        if self.bus.prg_rom.len() < 0x8000 {
            let mut i: usize = self.bus.prg_rom.len();
            while i < 0x8000
                invariant
                    i == self.bus.prg_rom@.len() <= 0x8000,
                    self.wf(),
                decreases 0x8000 - i,
            {
                self.bus.prg_rom.push(0);
                i += 1;
            }
        }
        let mut i: usize = 0;
        while i < program.len()
            invariant
                self.wf(),
                self.bus.prg_rom@.len() >= 0x8000,
                program@.len() <= 0x7FFC,
                i <= program@.len(),
                forall|j: int| 0 <= j < i ==> self.bus.prg_rom@[j] == program@[j],
            decreases program@.len() - i,
        {
            self.bus.prg_rom.set(i, program[i]);
            i += 1;
        }
        // reset vector: little-endian 0x8000
        self.bus.prg_rom.set(0x7FFC, 0x00);
        self.bus.prg_rom.set(0x7FFD, 0x80);
    }

    /// Reset: clear the registers, point the stack at `0xFD`, set the
    /// interrupt-disable flag (and the always-one bit), and reload the
    /// program counter from the reset vector.
    pub fn reset(&mut self)
        requires
            old(self).wf(),
        ensures
            final(self).wf(),
            final(self).accumulator == 0,
            final(self).indx_reg_x == 0,
            final(self).indx_reg_y == 0,
            final(self).stack_pointer == RESET_STACK_POINTER,
            final(self).status_reg.status == (INTERRUPT_DISABLE | ONE_FLAG),
            !final(self).trapped,
            final(self).program_counter == crate::bus::spec_prg_byte(old(self).bus.prg_rom@, 0xFFFC)
                + crate::bus::spec_prg_byte(old(self).bus.prg_rom@, 0xFFFD) * 0x100,
            final(self).bus == old(self).bus,
    {
        self.accumulator = 0;
        self.indx_reg_x = 0;
        self.indx_reg_y = 0;
        self.status_reg = StatusReg { status: INTERRUPT_DISABLE | ONE_FLAG };
        self.stack_pointer = RESET_STACK_POINTER;
        self.trapped = false;
        self.program_counter = self.bus.mem_read_u16(RESET_LOCATION);
    }

    /// Executes instructions until a break (or the trap state); each
    /// instruction advances the PPU by three dots per CPU cycle and the APU
    /// by one. Where the interpreted machine, started from the same core
    /// state, halts at a break within any number of steps, the machine
    /// lands exactly on the interpreted result.
    pub fn run(&mut self)
        requires
            old(self).wf(),
        ensures
            final(self).wf(),
            ({
                let pre = spec_core(*old(self));
                !old(self).trapped && old(self).bus.ppu.nmi_interrupt is None && old(
                    self,
                ).bus.ppu.ctrl_reg.flags & 0x80 == 0 ==> forall|n: nat|
                    n < 0xFFFF_FFFF_FFFF_FFFF && (#[trigger] spec_run_core(pre, n)) is Some
                        ==> spec_core(*final(self)) == spec_run_core(pre, n)->Some_0
            }),
    {
        let mut break_status: bool = false;
        let mut fuel: u64 = 0;
        let ghost pre = spec_core(*old(self));
        let ghost live = !old(self).trapped && old(self).bus.ppu.nmi_interrupt is None && old(
            self,
        ).bus.ppu.ctrl_reg.flags & 0x80 == 0;

        while !break_status && fuel < 0xFFFF_FFFF_FFFF_FFFF
            invariant
                self.wf(),
                live && break_status ==> forall|n: nat|
                    n < 0xFFFF_FFFF_FFFF_FFFF && (#[trigger] spec_run_core(pre, n)) is Some
                        ==> spec_core(*self) == spec_run_core(pre, n)->Some_0,
                live && !break_status ==> forall|n: nat|
                    n < 0xFFFF_FFFF_FFFF_FFFF && (#[trigger] spec_run_core(pre, n)) is Some
                        ==> !self.trapped && self.bus.ppu.nmi_interrupt is None
                        && self.bus.ppu.ctrl_reg.flags & 0x80 == 0 && exists|m: nat|
                        1 <= m <= n - fuel && spec_run_core(spec_core(*self), m)
                            == spec_run_core(pre, n),
            decreases 0xFFFF_FFFF_FFFF_FFFFu64 - fuel,
        {
            let ghost prev = *self;
            let ghost fuel0 = fuel;
            break_status = self.step();
            fuel += 1;
            proof {
                if live {
                    assert forall|n: nat|
                        n < 0xFFFF_FFFF_FFFF_FFFF && (#[trigger] spec_run_core(pre, n))
                            is Some implies (if break_status {
                        spec_core(*self) == spec_run_core(pre, n)->Some_0
                    } else {
                        !self.trapped && self.bus.ppu.nmi_interrupt is None
                            && self.bus.ppu.ctrl_reg.flags & 0x80 == 0 && exists|m: nat|
                            1 <= m <= n - fuel && spec_run_core(spec_core(*self), m)
                                == spec_run_core(pre, n)
                    }) by {
                        let m = choose|m: nat|
                            1 <= m <= n - fuel0 && spec_run_core(spec_core(prev), m)
                                == spec_run_core(pre, n);
                        assert(spec_run_core(spec_core(prev), m) == spec_run_core(pre, n));
                        assert(spec_step_core(spec_core(prev)) is Some);
                        if !break_status {
                            let m2 = (m - 1) as nat;
                            assert(1 <= m2 <= n - fuel && spec_run_core(spec_core(*self), m2)
                                == spec_run_core(pre, n));
                            assert(!self.trapped && self.bus.ppu.nmi_interrupt is None
                                && self.bus.ppu.ctrl_reg.flags & 0x80 == 0);
                        }
                    }
                }
            }
        }
    }

    /// Executes instructions until a break, handing control to the host's
    /// callback before each one; the callback may inspect and adjust the
    /// machine (memory, controllers) between instructions.
    pub fn run_with_callback<F: Fn(&mut CPU6502)>(&mut self, callback: F)
        requires
            old(self).wf(),
            forall|c: &mut CPU6502| (*c).wf() ==> call_requires(callback, (c,)),
            forall|c: &mut CPU6502, u: ()|
                (*c).wf() && call_ensures(callback, (c,), u) ==> (*final(c)).wf(),
        ensures
            final(self).wf(),
    {
        let mut break_status: bool = false;
        let mut fuel: u64 = 0;

        while !break_status && fuel < 0xFFFF_FFFF_FFFF_FFFF
            invariant
                self.wf(),
                forall|c: &mut CPU6502| (*c).wf() ==> call_requires(callback, (c,)),
                forall|c: &mut CPU6502, u: ()|
                    (*c).wf() && call_ensures(callback, (c,), u) ==> (*final(c)).wf(),
            decreases 0xFFFF_FFFF_FFFF_FFFFu64 - fuel,
        {
            callback(self);
            break_status = self.step();
            fuel += 1;
        }
    }

    /// One instruction: service a pending NMI (or IRQ, when enabled), fetch,
    /// decode, execute and clock the bus; returns whether this was a break.
    /// The PPU advances by exactly three dots for every APU (CPU) cycle.
    pub fn step(&mut self) -> (brk: bool)
        requires
            old(self).wf(),
        ensures
            final(self).wf(),
            old(self).trapped ==> brk && *final(self) == *old(self),
            final(self).bus.ppu.dots@ - old(self).bus.ppu.dots@ == 3 * (final(self).bus.apu.cycles@ - old(self).bus.apu.cycles@),
            !old(self).trapped && old(self).bus.ppu.nmi_interrupt is None && !old(self).bus.apu.irq_flagged() && old(self).program_counter >= 0x8000 ==> brk == (
            crate::bus::spec_prg_byte(old(self).bus.prg_rom@, old(self).program_counter) == 0),
            ({
                let pre = spec_core(*old(self));
                !old(self).trapped && old(self).bus.ppu.nmi_interrupt is None && old(self).bus.ppu.ctrl_reg.flags & 0x80 == 0 && (spec_step_core(pre) matches Some(
                    (post, halt),
                )) ==> {
                    &&& spec_core(*final(self)) == spec_step_core(pre)->Some_0.0
                    &&& brk == spec_step_core(pre)->Some_0.1
                    &&& !final(self).trapped
                    &&& final(self).bus.ppu.nmi_interrupt is None
                    &&& final(self).bus.ppu.ctrl_reg.flags & 0x80 == 0
                }
            }),
    {
        if self.trapped {
            return true;
        }
        proof {
            let pre = spec_core(*old(self));
            if spec_step_core(pre) is Some {
                assert(spec_in_class(pre));
            }
        }

        if let Some(_nmi) = self.bus.poll_nmi_status() {
            self.interrupt_nmi();
        } else if self.bus.poll_irq() && self.status_reg.get_flag(INTERRUPT_DISABLE) == 0 {
            self.interrupt_irq();
        }

        let op_code = self.bus.mem_read(self.program_counter);
        self.program_counter = self.program_counter.wrapping_add(1);

        self.op_code_instraction(op_code)
    }

    pub fn load_and_run(&mut self, program: Vec<u8>)
        requires
            old(self).wf(),
            program@.len() <= 0x7FFC,
        ensures
            final(self).wf(),
    {
        self.load(program);
        self.reset();
        self.run();
    }

    pub fn mem_write(&mut self, addr: u16, data: u8)
        requires
            old(self).wf(),
        ensures
            final(self).wf(),
            addr < 0x2000 ==> final(self).bus.cpu_vram@ == old(self).bus.cpu_vram@.update(
                (addr & 0x07FF) as int,
                data,
            ),
    {
        self.bus.mem_write(addr, data);
    }

    pub fn mem_read(&mut self, addr: u16) -> (r: u8)
        requires
            old(self).wf(),
        ensures
            final(self).wf(),
            addr < 0x2000 ==> r == old(self).bus.cpu_vram@[(addr & 0x07FF) as int],
            addr >= 0x8000 ==> r == crate::bus::spec_prg_byte(old(self).bus.prg_rom@, addr),
    {
        self.bus.mem_read(addr)
    }

    /// NMI service: push the return address and the status (break cleared,
    /// always-one set), set interrupt-disable, load the NMI vector, and
    /// charge two cycles.
    fn interrupt_nmi(&mut self)
        requires
            old(self).wf(),
        ensures
            final(self).wf(),
    {
        self.push_stack_u16(self.program_counter);

        let pushed = (self.status_reg.status & !BREAK_COMMAND) | ONE_FLAG;
        self.push_stack(pushed);

        self.status_reg.set_flag(INTERRUPT_DISABLE);

        let handler_addr = self.bus.mem_read_u16(NON_MASKABLE_INTER_HNDLER_ADDR);
        self.program_counter = handler_addr;
        self.bus.tick(2);
    }

    /// IRQ service: as NMI, through the `0xFFFE` vector.
    fn interrupt_irq(&mut self)
        requires
            old(self).wf(),
        ensures
            final(self).wf(),
    {
        self.push_stack_u16(self.program_counter);

        let pushed = (self.status_reg.status & !BREAK_COMMAND) | ONE_FLAG;
        self.push_stack(pushed);

        self.status_reg.set_flag(INTERRUPT_DISABLE);

        let handler_addr = self.bus.mem_read_u16(BRK_INTR_HANDLER_ADDR);
        self.program_counter = handler_addr;
        self.bus.tick(2);
    }

    // load and store operations

    fn lda(&mut self, mode: AddressingMode)
        requires
            old(self).wf(),
            mode != AddressingMode::Implicit && mode != AddressingMode::Accumulator,
        ensures
            final(self).wf(),
            flag_set(final(self).status_reg.status, ZERO_FLAG) == (final(self).accumulator == 0),
            flag_set(final(self).status_reg.status, NEGATIVE_FLAG) == (final(self).accumulator
                >= 0x80),
            final(self).indx_reg_x == old(self).indx_reg_x,
            final(self).indx_reg_y == old(self).indx_reg_y,
            mode == AddressingMode::Immediate && crate::bus::spec_pure_addr(
                old(self).program_counter,
            ) ==> *final(self) == spec_loaded_a(
                *old(self),
                crate::bus::spec_cpu_byte(old(self).bus, old(self).program_counter),
            ),
            mode == AddressingMode::ZeroPage && crate::bus::spec_pure_addr(
                old(self).program_counter,
            ) ==> *final(self) == spec_loaded_a(
                *old(self),
                crate::bus::spec_cpu_byte(
                    old(self).bus,
                    crate::bus::spec_cpu_byte(old(self).bus, old(self).program_counter) as u16,
                ),
            ),
    {
        let addr = self.get_operand_addr(mode);
        let val = self.bus.mem_read(addr);
        self.accumulator = val;
        self.update_zero_and_negative(val);
    }

    fn ldx(&mut self, mode: AddressingMode)
        requires
            old(self).wf(),
            mode != AddressingMode::Implicit && mode != AddressingMode::Accumulator,
        ensures
            final(self).wf(),
            flag_set(final(self).status_reg.status, ZERO_FLAG) == (final(self).indx_reg_x == 0),
            flag_set(final(self).status_reg.status, NEGATIVE_FLAG) == (final(self).indx_reg_x
                >= 0x80),
            final(self).accumulator == old(self).accumulator,
            final(self).indx_reg_y == old(self).indx_reg_y,
            mode == AddressingMode::Immediate && crate::bus::spec_pure_addr(
                old(self).program_counter,
            ) ==> *final(self) == spec_loaded_x(
                *old(self),
                crate::bus::spec_cpu_byte(old(self).bus, old(self).program_counter),
            ),
    {
        let addr = self.get_operand_addr(mode);
        let val = self.bus.mem_read(addr);
        self.indx_reg_x = val;
        self.update_zero_and_negative(val);
    }

    fn ldy(&mut self, mode: AddressingMode)
        requires
            old(self).wf(),
            mode != AddressingMode::Implicit && mode != AddressingMode::Accumulator,
        ensures
            final(self).wf(),
            flag_set(final(self).status_reg.status, ZERO_FLAG) == (final(self).indx_reg_y == 0),
            flag_set(final(self).status_reg.status, NEGATIVE_FLAG) == (final(self).indx_reg_y
                >= 0x80),
            final(self).accumulator == old(self).accumulator,
            final(self).indx_reg_x == old(self).indx_reg_x,
            mode == AddressingMode::Immediate && crate::bus::spec_pure_addr(
                old(self).program_counter,
            ) ==> *final(self) == spec_loaded_y(
                *old(self),
                crate::bus::spec_cpu_byte(old(self).bus, old(self).program_counter),
            ),
    {
        let addr = self.get_operand_addr(mode);
        let val = self.bus.mem_read(addr);
        self.indx_reg_y = val;
        self.update_zero_and_negative(val);
    }

    fn sta(&mut self, mode: AddressingMode)
        requires
            old(self).wf(),
            mode != AddressingMode::Implicit && mode != AddressingMode::Accumulator,
        ensures
            final(self).wf(),
            final(self).accumulator == old(self).accumulator,
            final(self).status_reg == old(self).status_reg,
            mode == AddressingMode::ZeroPage && crate::bus::spec_pure_addr(
                old(self).program_counter,
            ) ==> final(self).bus.cpu_vram@ == old(self).bus.cpu_vram@.update(
                crate::bus::spec_cpu_byte(old(self).bus, old(self).program_counter) as int,
                old(self).accumulator,
            ) && *final(self) == (CPU6502 {
                bus: (Bus { cpu_vram: final(self).bus.cpu_vram, ..old(self).bus }),
                ..*old(self)
            }),
    {
        proof {
            crate::bits::lemma_u16_facts();
        }
        let addr = self.get_operand_addr(mode);
        self.bus.mem_write(addr, self.accumulator);
    }

    fn stx(&mut self, mode: AddressingMode)
        requires
            old(self).wf(),
            mode != AddressingMode::Implicit && mode != AddressingMode::Accumulator,
        ensures
            final(self).wf(),
            final(self).indx_reg_x == old(self).indx_reg_x,
            final(self).status_reg == old(self).status_reg,
    {
        let addr = self.get_operand_addr(mode);
        self.bus.mem_write(addr, self.indx_reg_x);
    }

    fn sty(&mut self, mode: AddressingMode)
        requires
            old(self).wf(),
            mode != AddressingMode::Implicit && mode != AddressingMode::Accumulator,
        ensures
            final(self).wf(),
            final(self).indx_reg_y == old(self).indx_reg_y,
            final(self).status_reg == old(self).status_reg,
    {
        let addr = self.get_operand_addr(mode);
        self.bus.mem_write(addr, self.indx_reg_y);
    }

    // transfer operations

    fn tax(&mut self)
        requires
            old(self).wf(),
        ensures
            final(self).wf(),
            final(self).indx_reg_x == old(self).accumulator,
            final(self).accumulator == old(self).accumulator,
            flag_set(final(self).status_reg.status, ZERO_FLAG) == (final(self).indx_reg_x == 0),
            flag_set(final(self).status_reg.status, NEGATIVE_FLAG) == (final(self).indx_reg_x
                >= 0x80),
            final(self).program_counter == old(self).program_counter,
            final(self).bus == old(self).bus,
            *final(self) == (CPU6502 {
                indx_reg_x: old(self).accumulator,
                status_reg: (StatusReg {
                    status: spec_update_zn(old(self).status_reg.status, old(self).accumulator),
                }),
                ..*old(self)
            }),
    {
        self.indx_reg_x = self.accumulator;
        self.update_zero_and_negative(self.indx_reg_x);
    }

    fn tay(&mut self)
        requires
            old(self).wf(),
        ensures
            final(self).wf(),
            final(self).indx_reg_y == old(self).accumulator,
            final(self).accumulator == old(self).accumulator,
            flag_set(final(self).status_reg.status, ZERO_FLAG) == (final(self).indx_reg_y == 0),
            flag_set(final(self).status_reg.status, NEGATIVE_FLAG) == (final(self).indx_reg_y
                >= 0x80),
            final(self).bus == old(self).bus,
    {
        self.indx_reg_y = self.accumulator;
        self.update_zero_and_negative(self.indx_reg_y);
    }

    fn txa(&mut self)
        requires
            old(self).wf(),
        ensures
            final(self).wf(),
            final(self).accumulator == old(self).indx_reg_x,
            flag_set(final(self).status_reg.status, ZERO_FLAG) == (final(self).accumulator == 0),
            flag_set(final(self).status_reg.status, NEGATIVE_FLAG) == (final(self).accumulator
                >= 0x80),
            final(self).bus == old(self).bus,
    {
        self.accumulator = self.indx_reg_x;
        self.update_zero_and_negative(self.accumulator);
    }

    fn tya(&mut self)
        requires
            old(self).wf(),
        ensures
            final(self).wf(),
            final(self).accumulator == old(self).indx_reg_y,
            flag_set(final(self).status_reg.status, ZERO_FLAG) == (final(self).accumulator == 0),
            flag_set(final(self).status_reg.status, NEGATIVE_FLAG) == (final(self).accumulator
                >= 0x80),
            final(self).bus == old(self).bus,
    {
        self.accumulator = self.indx_reg_y;
        self.update_zero_and_negative(self.accumulator);
    }

    // stack operations

    fn tsx(&mut self)
        requires
            old(self).wf(),
        ensures
            final(self).wf(),
            final(self).indx_reg_x == old(self).stack_pointer,
            flag_set(final(self).status_reg.status, ZERO_FLAG) == (final(self).indx_reg_x == 0),
            flag_set(final(self).status_reg.status, NEGATIVE_FLAG) == (final(self).indx_reg_x
                >= 0x80),
            final(self).bus == old(self).bus,
    {
        self.indx_reg_x = self.stack_pointer;
        self.update_zero_and_negative(self.indx_reg_x);
    }

    fn txs(&mut self)
        requires
            old(self).wf(),
        ensures
            final(self).wf(),
            final(self).stack_pointer == old(self).indx_reg_x,
            final(self).status_reg == old(self).status_reg,
            final(self).bus == old(self).bus,
    {
        self.stack_pointer = self.indx_reg_x;
    }

    fn pha(&mut self)
        requires
            old(self).wf(),
        ensures
            final(self).wf(),
            final(self).stack_pointer == (old(self).stack_pointer - 1) % 256,
            final(self).accumulator == old(self).accumulator,
    {
        self.push_stack(self.accumulator);
    }

    /// PHP pushes the status with the break-command and always-one bits set.
    fn php(&mut self)
        requires
            old(self).wf(),
        ensures
            final(self).wf(),
            final(self).stack_pointer == (old(self).stack_pointer - 1) % 256,
            final(self).status_reg == old(self).status_reg,
            old(self).stack_pointer < 0x700 ==> final(self).bus.cpu_vram@ == old(self).bus.cpu_vram@.update(
                0x100 + old(self).stack_pointer,
                status::spec_php_pushed(old(self).status_reg.status),
            ),
    {
        self.push_stack(self.status_reg.status | BREAK_COMMAND | ONE_FLAG);
    }

    fn pla(&mut self)
        requires
            old(self).wf(),
        ensures
            final(self).wf(),
            final(self).stack_pointer == (old(self).stack_pointer + 1) % 256,
            flag_set(final(self).status_reg.status, ZERO_FLAG) == (final(self).accumulator == 0),
            flag_set(final(self).status_reg.status, NEGATIVE_FLAG) == (final(self).accumulator
                >= 0x80),
    {
        self.accumulator = self.pop_stack();
        self.update_zero_and_negative(self.accumulator);
    }

    /// PLP pops the status, forcing the always-one bit on and the
    /// break-command bit off.
    fn plp(&mut self)
        requires
            old(self).wf(),
        ensures
            final(self).wf(),
            final(self).stack_pointer == (old(self).stack_pointer + 1) % 256,
            final(self).status_reg.status & BREAK_COMMAND == 0,
            final(self).status_reg.status & ONE_FLAG == ONE_FLAG,
            ({
                let sp = ((old(self).stack_pointer + 1) % 256) as u8;
                sp < 0x700 ==> final(self).status_reg.status == status::spec_plp_applied(
                    old(self).bus.cpu_vram@[0x100 + sp],
                )
            }),
    {
        let v = self.pop_stack();
        self.status_reg.status = v;
        self.status_reg.set_flag(ONE_FLAG);
        self.status_reg.unset_flag(BREAK_COMMAND);
        proof {
            crate::bits::lemma_u8_masks();
        }
    }

    /// The stack lives in page 1; pushes walk the pointer down with wrap.
    fn push_stack(&mut self, val: u8)
        requires
            old(self).wf(),
        ensures
            final(self).wf(),
            final(self).stack_pointer == (old(self).stack_pointer - 1) % 256,
            final(self).status_reg == old(self).status_reg,
            final(self).accumulator == old(self).accumulator,
            final(self).indx_reg_x == old(self).indx_reg_x,
            final(self).indx_reg_y == old(self).indx_reg_y,
            final(self).program_counter == old(self).program_counter,
            final(self).bus.cpu_vram@ == old(self).bus.cpu_vram@.update(
                0x100 + old(self).stack_pointer,
                val,
            ),
            final(self).bus == (Bus { cpu_vram: final(self).bus.cpu_vram, ..old(self).bus }),
            *final(self) == (CPU6502 {
                stack_pointer: final(self).stack_pointer,
                bus: final(self).bus,
                ..*old(self)
            }),
            final(self).bus.ppu == old(self).bus.ppu,
            final(self).bus.apu == old(self).bus.apu,
            final(self).bus.prg_rom@ == old(self).bus.prg_rom@,
    {
        let mem_addr = STACK_ADDR + self.stack_pointer as u16;
        proof {
            crate::bits::lemma_u16_facts();
        }
        self.bus.mem_write(mem_addr, val);
        self.stack_pointer = self.stack_pointer.wrapping_sub(1);
    }

    fn pop_stack(&mut self) -> (r: u8)
        requires
            old(self).wf(),
        ensures
            final(self).wf(),
            final(self).stack_pointer == (old(self).stack_pointer + 1) % 256,
            final(self).status_reg == old(self).status_reg,
            final(self).bus == old(self).bus,
            r == old(self).bus.cpu_vram@[0x100 + (old(self).stack_pointer + 1) % 256],
    {
        self.stack_pointer = self.stack_pointer.wrapping_add(1);
        let mem_addr = STACK_ADDR + self.stack_pointer as u16;
        proof {
            crate::bits::lemma_u16_facts();
        }
        self.bus.mem_read(mem_addr)
    }

    fn push_stack_u16(&mut self, val: u16)
        requires
            old(self).wf(),
        ensures
            final(self).wf(),
            final(self).stack_pointer == (old(self).stack_pointer - 2) % 256,
            final(self).status_reg == old(self).status_reg,
            final(self).program_counter == old(self).program_counter,
            final(self).accumulator == old(self).accumulator,
            final(self).indx_reg_x == old(self).indx_reg_x,
            final(self).indx_reg_y == old(self).indx_reg_y,
            final(self).bus.cpu_vram@ == old(self).bus.cpu_vram@.update(
                0x100 + old(self).stack_pointer,
                (val >> 8) as u8,
            ).update(0x100 + (old(self).stack_pointer - 1) % 256, (val & 0xFF) as u8),
            final(self).bus == (Bus { cpu_vram: final(self).bus.cpu_vram, ..old(self).bus }),
            *final(self) == (CPU6502 {
                stack_pointer: final(self).stack_pointer,
                bus: final(self).bus,
                ..*old(self)
            }),
    {
        proof {
            crate::bits::lemma_le_split(val);
        }
        self.push_stack((val >> 8) as u8);
        self.push_stack((val & 0xFF) as u8);
    }

    fn pop_stack_u16(&mut self) -> (r: u16)
        requires
            old(self).wf(),
        ensures
            final(self).wf(),
            final(self).stack_pointer == (old(self).stack_pointer + 2) % 256,
            final(self).status_reg == old(self).status_reg,
            final(self).bus == old(self).bus,
    {
        let lo = self.pop_stack();
        let hi = self.pop_stack();
        proof {
            crate::bits::lemma_le_combine(lo, hi);
        }
        lo as u16 | ((hi as u16) << 8)
    }

    // logical operations

    fn and(&mut self, mode: AddressingMode)
        requires
            old(self).wf(),
            mode != AddressingMode::Implicit && mode != AddressingMode::Accumulator,
        ensures
            final(self).wf(),
            flag_set(final(self).status_reg.status, ZERO_FLAG) == (final(self).accumulator == 0),
            flag_set(final(self).status_reg.status, NEGATIVE_FLAG) == (final(self).accumulator
                >= 0x80),
    {
        let addr = self.get_operand_addr(mode);
        let byte = self.bus.mem_read(addr);
        self.accumulator &= byte;
        self.update_zero_and_negative(self.accumulator);
    }

    fn eor(&mut self, mode: AddressingMode)
        requires
            old(self).wf(),
            mode != AddressingMode::Implicit && mode != AddressingMode::Accumulator,
        ensures
            final(self).wf(),
            flag_set(final(self).status_reg.status, ZERO_FLAG) == (final(self).accumulator == 0),
            flag_set(final(self).status_reg.status, NEGATIVE_FLAG) == (final(self).accumulator
                >= 0x80),
    {
        let addr = self.get_operand_addr(mode);
        let byte = self.bus.mem_read(addr);
        self.accumulator ^= byte;
        self.update_zero_and_negative(self.accumulator);
    }

    fn ora(&mut self, mode: AddressingMode)
        requires
            old(self).wf(),
            mode != AddressingMode::Implicit && mode != AddressingMode::Accumulator,
        ensures
            final(self).wf(),
            flag_set(final(self).status_reg.status, ZERO_FLAG) == (final(self).accumulator == 0),
            flag_set(final(self).status_reg.status, NEGATIVE_FLAG) == (final(self).accumulator
                >= 0x80),
    {
        let addr = self.get_operand_addr(mode);
        let byte = self.bus.mem_read(addr);
        self.accumulator |= byte;
        self.update_zero_and_negative(self.accumulator);
    }

    /// BIT: zero from A AND the operand, overflow and negative copied from
    /// operand bits 6 and 7.
    fn bit(&mut self, mode: AddressingMode)
        requires
            old(self).wf(),
            mode != AddressingMode::Implicit && mode != AddressingMode::Accumulator,
        ensures
            final(self).wf(),
            final(self).accumulator == old(self).accumulator,
    {
        let addr = self.get_operand_addr(mode);
        let byte = self.bus.mem_read(addr);
        let res = self.accumulator & byte;

        let overflow = (byte & OVERFLOW_FLAG) != 0;

        self.update_zero_flag(res);
        self.update_overflow_flag(overflow);
        self.update_negative_flag(byte);
    }

    // arithmetic operations

    fn adc(&mut self, mode: AddressingMode)
        requires
            old(self).wf(),
            mode != AddressingMode::Implicit && mode != AddressingMode::Accumulator,
        ensures
            final(self).wf(),
            flag_set(final(self).status_reg.status, ZERO_FLAG) == (final(self).accumulator == 0),
            flag_set(final(self).status_reg.status, NEGATIVE_FLAG) == (final(self).accumulator
                >= 0x80),
    {
        let addr = self.get_operand_addr(mode);
        let byte = self.bus.mem_read(addr);
        self.add_with_carry(byte);
    }

    /// SBC is ADC of the operand's complement.
    fn sbc(&mut self, mode: AddressingMode)
        requires
            old(self).wf(),
            mode != AddressingMode::Implicit && mode != AddressingMode::Accumulator,
        ensures
            final(self).wf(),
            flag_set(final(self).status_reg.status, ZERO_FLAG) == (final(self).accumulator == 0),
            flag_set(final(self).status_reg.status, NEGATIVE_FLAG) == (final(self).accumulator
                >= 0x80),
    {
        let addr = self.get_operand_addr(mode);
        let byte = self.bus.mem_read(addr);
        self.add_with_carry(!byte);
    }

    /// The ALU addition: `sum = A + operand + carry`; carry-out is
    /// `sum > 0xFF`; overflow is set when the operands share a sign bit and
    /// the result differs; the decimal-mode bit has no effect.
    fn add_with_carry(&mut self, val: u8)
        requires
            old(self).wf(),
        ensures
            final(self).wf(),
            ({
                let carry_in: int = if flag_set(old(self).status_reg.status, CARRY_FLAG) {
                    1
                } else {
                    0
                };
                let sum: int = old(self).accumulator + val + carry_in;
                &&& final(self).accumulator == sum % 256
                &&& flag_set(final(self).status_reg.status, CARRY_FLAG) == (sum > 0xFF)
                &&& flag_set(final(self).status_reg.status, ZERO_FLAG) == (final(self).accumulator == 0)
                &&& flag_set(final(self).status_reg.status, NEGATIVE_FLAG) == (final(self).accumulator >= 0x80)
                &&& flag_set(final(self).status_reg.status, OVERFLOW_FLAG) == ((final(self).accumulator ^ old(self).accumulator) & (final(self).accumulator ^ val) & 0x80
                    != 0)
            }),
            final(self).bus == old(self).bus,
            final(self).indx_reg_x == old(self).indx_reg_x,
            final(self).indx_reg_y == old(self).indx_reg_y,
            final(self).program_counter == old(self).program_counter,
    {
        let carry_bit = self.status_reg.get_flag(CARRY_FLAG);
        proof {
            crate::bits::lemma_u8_masks();
        }
        let sum: u16 = self.accumulator as u16 + val as u16 + carry_bit as u16;
        let is_carry = sum > 0xFF;
        let res: u8 = (sum & 0xFF) as u8;
        proof {
            crate::bits::lemma_u16_facts();
        }
        let overflow = ((res ^ self.accumulator) & (res ^ val) & 0x80) != 0;

        self.update_carry_flag(is_carry);
        let ghost s1 = self.status_reg.status;
        self.update_zero_flag(res);
        let ghost s2 = self.status_reg.status;
        self.update_overflow_flag(overflow);
        let ghost s3 = self.status_reg.status;
        self.update_negative_flag(res);
        let ghost s4 = self.status_reg.status;

        self.accumulator = res;
        proof {
            crate::bits::lemma_flag_constants();
            lemma_flag_preserved(s1, s2, ZERO_FLAG, CARRY_FLAG);
            lemma_flag_preserved(s2, s3, OVERFLOW_FLAG, CARRY_FLAG);
            lemma_flag_preserved(s3, s4, NEGATIVE_FLAG, CARRY_FLAG);
            lemma_flag_preserved(s2, s3, OVERFLOW_FLAG, ZERO_FLAG);
            lemma_flag_preserved(s3, s4, NEGATIVE_FLAG, ZERO_FLAG);
            lemma_flag_preserved(s3, s4, NEGATIVE_FLAG, OVERFLOW_FLAG);
        }
    }

    fn inc(&mut self, mode: AddressingMode)
        requires
            old(self).wf(),
            mode != AddressingMode::Implicit && mode != AddressingMode::Accumulator,
        ensures
            final(self).wf(),
            final(self).accumulator == old(self).accumulator,
    {
        let addr = self.get_operand_addr(mode);
        let byte = self.bus.mem_read(addr).wrapping_add(1);
        self.bus.mem_write(addr, byte);
        self.update_zero_and_negative(byte);
    }

    fn dec(&mut self, mode: AddressingMode)
        requires
            old(self).wf(),
            mode != AddressingMode::Implicit && mode != AddressingMode::Accumulator,
        ensures
            final(self).wf(),
            final(self).accumulator == old(self).accumulator,
    {
        let addr = self.get_operand_addr(mode);
        let byte = self.bus.mem_read(addr).wrapping_sub(1);
        self.bus.mem_write(addr, byte);
        self.update_zero_and_negative(byte);
    }

    /// INX: X steps up with wrap; zero and negative follow the result.
    fn inx(&mut self)
        requires
            old(self).wf(),
        ensures
            final(self).wf(),
            final(self).indx_reg_x == (old(self).indx_reg_x + 1) % 256,
            flag_set(final(self).status_reg.status, ZERO_FLAG) == (final(self).indx_reg_x == 0),
            flag_set(final(self).status_reg.status, NEGATIVE_FLAG) == (final(self).indx_reg_x
                >= 0x80),
            final(self).accumulator == old(self).accumulator,
            final(self).bus == old(self).bus,
            final(self).program_counter == old(self).program_counter,
            *final(self) == (CPU6502 {
                indx_reg_x: ((old(self).indx_reg_x + 1) % 256) as u8,
                status_reg: (StatusReg {
                    status: spec_update_zn(
                        old(self).status_reg.status,
                        ((old(self).indx_reg_x + 1) % 256) as u8,
                    ),
                }),
                ..*old(self)
            }),
    {
        self.indx_reg_x = self.indx_reg_x.wrapping_add(1);
        self.update_zero_and_negative(self.indx_reg_x);
    }

    fn dex(&mut self)
        requires
            old(self).wf(),
        ensures
            final(self).wf(),
            final(self).indx_reg_x == (old(self).indx_reg_x - 1) % 256,
            flag_set(final(self).status_reg.status, ZERO_FLAG) == (final(self).indx_reg_x == 0),
            flag_set(final(self).status_reg.status, NEGATIVE_FLAG) == (final(self).indx_reg_x
                >= 0x80),
            final(self).bus == old(self).bus,
    {
        self.indx_reg_x = self.indx_reg_x.wrapping_sub(1);
        self.update_zero_and_negative(self.indx_reg_x);
    }

    fn iny(&mut self)
        requires
            old(self).wf(),
        ensures
            final(self).wf(),
            final(self).indx_reg_y == (old(self).indx_reg_y + 1) % 256,
            flag_set(final(self).status_reg.status, ZERO_FLAG) == (final(self).indx_reg_y == 0),
            flag_set(final(self).status_reg.status, NEGATIVE_FLAG) == (final(self).indx_reg_y
                >= 0x80),
            final(self).bus == old(self).bus,
    {
        self.indx_reg_y = self.indx_reg_y.wrapping_add(1);
        self.update_zero_and_negative(self.indx_reg_y);
    }

    fn dey(&mut self)
        requires
            old(self).wf(),
        ensures
            final(self).wf(),
            final(self).indx_reg_y == (old(self).indx_reg_y - 1) % 256,
            flag_set(final(self).status_reg.status, ZERO_FLAG) == (final(self).indx_reg_y == 0),
            flag_set(final(self).status_reg.status, NEGATIVE_FLAG) == (final(self).indx_reg_y
                >= 0x80),
            final(self).bus == old(self).bus,
    {
        self.indx_reg_y = self.indx_reg_y.wrapping_sub(1);
        self.update_zero_and_negative(self.indx_reg_y);
    }

    // shifts and rotates: the carry takes the bit shifted out

    fn asl(&mut self, mode: AddressingMode)
        requires
            old(self).wf(),
            mode != AddressingMode::Implicit,
        ensures
            final(self).wf(),
            mode == AddressingMode::Accumulator ==> {
                &&& final(self).accumulator == old(self).accumulator << 1
                &&& flag_set(final(self).status_reg.status, CARRY_FLAG) == (old(self).accumulator
                    >= 0x80)
                &&& flag_set(final(self).status_reg.status, ZERO_FLAG) == (final(self).accumulator
                    == 0)
                &&& flag_set(final(self).status_reg.status, NEGATIVE_FLAG) == (final(self).accumulator >= 0x80)
            },
    {
        let val = self.get_val_by_mode(mode);
        let carry = (val & 0x80) != 0;
        let res = val << 1;

        proof {
            crate::bits::lemma_u8_masks();
        }
        self.update_carry_flag(carry);
        let ghost s1 = self.status_reg.status;
        self.update_zero_and_negative(res);
        proof {
            crate::bits::lemma_flag_constants();
            lemma_flag_preserved2(s1, self.status_reg.status, ZERO_FLAG, NEGATIVE_FLAG,
                CARRY_FLAG);
        }
        self.set_val_by_mode(mode, res);
    }

    fn lsr(&mut self, mode: AddressingMode)
        requires
            old(self).wf(),
            mode != AddressingMode::Implicit,
        ensures
            final(self).wf(),
            mode == AddressingMode::Accumulator ==> {
                &&& final(self).accumulator == old(self).accumulator >> 1
                &&& flag_set(final(self).status_reg.status, CARRY_FLAG) == (old(self).accumulator
                    & 0x01 != 0)
                &&& flag_set(final(self).status_reg.status, ZERO_FLAG) == (final(self).accumulator
                    == 0)
                &&& flag_set(final(self).status_reg.status, NEGATIVE_FLAG) == (final(self).accumulator >= 0x80)
            },
    {
        let val = self.get_val_by_mode(mode);
        let carry = (val & 0x01) != 0;
        let res = val >> 1;

        self.update_carry_flag(carry);
        let ghost s1 = self.status_reg.status;
        self.update_zero_and_negative(res);
        proof {
            crate::bits::lemma_flag_constants();
            lemma_flag_preserved2(s1, self.status_reg.status, ZERO_FLAG, NEGATIVE_FLAG,
                CARRY_FLAG);
        }
        self.set_val_by_mode(mode, res);
    }

    fn rol(&mut self, mode: AddressingMode)
        requires
            old(self).wf(),
            mode != AddressingMode::Implicit,
        ensures
            final(self).wf(),
            mode == AddressingMode::Accumulator ==> {
                &&& final(self).accumulator == (old(self).accumulator << 1) | (old(self).accumulator >> 7)
                &&& flag_set(final(self).status_reg.status, CARRY_FLAG) == (old(self).accumulator
                    >= 0x80)
            },
    {
        let val = self.get_val_by_mode(mode);
        let carry = (val & 0x80) != 0;
        let res = (val << 1) | (val >> 7);

        proof {
            crate::bits::lemma_u8_masks();
        }
        self.update_carry_flag(carry);
        let ghost s1 = self.status_reg.status;
        self.update_zero_and_negative(res);
        proof {
            crate::bits::lemma_flag_constants();
            lemma_flag_preserved2(s1, self.status_reg.status, ZERO_FLAG, NEGATIVE_FLAG,
                CARRY_FLAG);
        }
        self.set_val_by_mode(mode, res);
    }

    fn ror(&mut self, mode: AddressingMode)
        requires
            old(self).wf(),
            mode != AddressingMode::Implicit,
        ensures
            final(self).wf(),
            mode == AddressingMode::Accumulator ==> {
                &&& final(self).accumulator == (old(self).accumulator >> 1) | (old(self).accumulator << 7)
                &&& flag_set(final(self).status_reg.status, CARRY_FLAG) == (old(self).accumulator
                    & 0x01 != 0)
            },
    {
        let val = self.get_val_by_mode(mode);
        let carry = (val & 0x01) != 0;
        let res = (val >> 1) | (val << 7);

        self.update_carry_flag(carry);
        let ghost s1 = self.status_reg.status;
        self.update_zero_and_negative(res);
        proof {
            crate::bits::lemma_flag_constants();
            lemma_flag_preserved2(s1, self.status_reg.status, ZERO_FLAG, NEGATIVE_FLAG,
                CARRY_FLAG);
        }
        self.set_val_by_mode(mode, res);
    }

    // compare operations: carry when the register is at least the operand

    fn cmp(&mut self, mode: AddressingMode)
        requires
            old(self).wf(),
            mode != AddressingMode::Implicit && mode != AddressingMode::Accumulator,
        ensures
            final(self).wf(),
            final(self).accumulator == old(self).accumulator,
    {
        let reg = self.accumulator;
        self.compare(mode, reg);
    }

    fn cpx(&mut self, mode: AddressingMode)
        requires
            old(self).wf(),
            mode != AddressingMode::Implicit && mode != AddressingMode::Accumulator,
        ensures
            final(self).wf(),
            final(self).indx_reg_x == old(self).indx_reg_x,
    {
        let reg = self.indx_reg_x;
        self.compare(mode, reg);
    }

    fn cpy(&mut self, mode: AddressingMode)
        requires
            old(self).wf(),
            mode != AddressingMode::Implicit && mode != AddressingMode::Accumulator,
        ensures
            final(self).wf(),
            final(self).indx_reg_y == old(self).indx_reg_y,
    {
        let reg = self.indx_reg_y;
        self.compare(mode, reg);
    }

    /// The flags of `reg - operand`: carry iff `reg >= operand` unsigned,
    /// zero iff equal, negative from bit 7 of the wrapped difference.
    fn compare(&mut self, mode: AddressingMode, compare_reg: u8)
        requires
            old(self).wf(),
            mode != AddressingMode::Implicit && mode != AddressingMode::Accumulator,
        ensures
            final(self).wf(),
            final(self).accumulator == old(self).accumulator,
            final(self).indx_reg_x == old(self).indx_reg_x,
            final(self).indx_reg_y == old(self).indx_reg_y,
    {
        let addr = self.get_operand_addr(mode);
        let val = self.bus.mem_read(addr);
        let res = compare_reg.wrapping_sub(val);
        let carry = compare_reg >= val;

        self.update_carry_flag(carry);
        self.update_zero_and_negative(res);
    }

    // branches: taken branches cost a cycle, page crossings one more

    fn bcc(&mut self, mode: AddressingMode)
        requires
            old(self).wf(),
            mode == AddressingMode::Relative,
        ensures
            final(self).wf(),
    {
        let cond = self.status_reg.get_flag(CARRY_FLAG) == 0;
        self.branch(mode, cond);
    }

    fn bcs(&mut self, mode: AddressingMode)
        requires
            old(self).wf(),
            mode == AddressingMode::Relative,
        ensures
            final(self).wf(),
    {
        let cond = self.status_reg.get_flag(CARRY_FLAG) != 0;
        self.branch(mode, cond);
    }

    fn beq(&mut self, mode: AddressingMode)
        requires
            old(self).wf(),
            mode == AddressingMode::Relative,
        ensures
            final(self).wf(),
    {
        let cond = self.status_reg.get_flag(ZERO_FLAG) != 0;
        self.branch(mode, cond);
    }

    fn bne(&mut self, mode: AddressingMode)
        requires
            old(self).wf(),
            mode == AddressingMode::Relative,
        ensures
            final(self).wf(),
    {
        let cond = self.status_reg.get_flag(ZERO_FLAG) == 0;
        self.branch(mode, cond);
    }

    fn bpl(&mut self, mode: AddressingMode)
        requires
            old(self).wf(),
            mode == AddressingMode::Relative,
        ensures
            final(self).wf(),
    {
        let cond = self.status_reg.get_flag(NEGATIVE_FLAG) == 0;
        self.branch(mode, cond);
    }

    fn bmi(&mut self, mode: AddressingMode)
        requires
            old(self).wf(),
            mode == AddressingMode::Relative,
        ensures
            final(self).wf(),
    {
        let cond = self.status_reg.get_flag(NEGATIVE_FLAG) != 0;
        self.branch(mode, cond);
    }

    fn bvc(&mut self, mode: AddressingMode)
        requires
            old(self).wf(),
            mode == AddressingMode::Relative,
        ensures
            final(self).wf(),
    {
        let cond = self.status_reg.get_flag(OVERFLOW_FLAG) == 0;
        self.branch(mode, cond);
    }

    fn bvs(&mut self, mode: AddressingMode)
        requires
            old(self).wf(),
            mode == AddressingMode::Relative,
        ensures
            final(self).wf(),
    {
        let cond = self.status_reg.get_flag(OVERFLOW_FLAG) != 0;
        self.branch(mode, cond);
    }

    /// A taken branch adds the sign-extended offset to the address of the
    /// next instruction and records the extra cycle (and the page cross).
    fn branch(&mut self, mode: AddressingMode, cond: bool)
        requires
            old(self).wf(),
            mode == AddressingMode::Relative,
        ensures
            final(self).wf(),
            !cond ==> *final(self) == *old(self),
            cond ==> final(self).branch_taken,
    {
        if cond {
            let addr = self.get_operand_addr(mode);
            let val = self.bus.mem_read(addr);
            // sign-extend the 8-bit offset
            let offset: u16 = if val >= 0x80 {
                (val as u16) | 0xFF00
            } else {
                val as u16
            };
            let base = self.program_counter.wrapping_add(num_of_address_mode_bytes(mode));
            let sum = base.wrapping_add(offset);

            self.branch_taken = true;
            self.page_crossed = page_cross(self.program_counter, sum);

            self.program_counter = sum;
        }
    }

    // jumps

    /// JMP. The indirect form reproduces the page-boundary bug: a pointer
    /// whose low byte is `0xFF` fetches its high byte from the start of the
    /// same page rather than the next one.
    fn jmp(&mut self, mode: AddressingMode)
        requires
            old(self).wf(),
            mode == AddressingMode::Indirect || mode == AddressingMode::Absolute,
        ensures
            final(self).wf(),
            ({
                let pc = old(self).program_counter;
                let nxt: u16 = if pc == 0xFFFF {
                    0
                } else {
                    (pc + 1) as u16
                };
                let readable = crate::bus::spec_pure_addr(pc) && crate::bus::spec_pure_addr(nxt);
                &&& (mode == AddressingMode::Absolute && readable ==> *final(self) == (CPU6502 {
                    program_counter: crate::bus::spec_cpu_word(old(self).bus, pc) as u16,
                    ..*old(self)
                }))
                &&& (mode == AddressingMode::Indirect && readable ==> {
                    let ptr = crate::bus::spec_cpu_word(old(self).bus, pc) as u16;
                    let addrs = spec_indirect_ptr_addrs(ptr);
                    crate::bus::spec_pure_addr(addrs.0) && crate::bus::spec_pure_addr(addrs.1)
                        ==> *final(self) == (CPU6502 {
                        program_counter: (crate::bus::spec_cpu_byte(old(self).bus, addrs.0)
                            + crate::bus::spec_cpu_byte(old(self).bus, addrs.1) * 0x100) as u16,
                        ..*old(self)
                    })
                })
            }),
    {
        if mode == AddressingMode::Indirect {
            let ptr = self.bus.mem_read_u16(self.program_counter);
            let (lo_addr, hi_addr) = indirect_ptr_addrs(ptr);
            let lo = self.bus.mem_read(lo_addr);
            let hi = self.bus.mem_read(hi_addr);
            proof {
                crate::bits::lemma_le_combine(lo, hi);
            }
            self.program_counter = lo as u16 | ((hi as u16) << 8);
        } else {
            let addr = self.bus.mem_read_u16(self.program_counter);
            self.program_counter = addr;
        }
    }

    fn jsr(&mut self, mode: AddressingMode)
        requires
            old(self).wf(),
            mode == AddressingMode::Absolute,
        ensures
            final(self).wf(),
    {
        let addr = self.bus.mem_read_u16(self.program_counter);
        let ret = self.program_counter.wrapping_add(num_of_address_mode_bytes(mode)).wrapping_sub(
            1,
        );
        self.push_stack_u16(ret);
        self.program_counter = addr;
    }

    fn rts(&mut self)
        requires
            old(self).wf(),
        ensures
            final(self).wf(),
    {
        let ret = self.pop_stack_u16();
        self.program_counter = ret.wrapping_add(1);
    }

    /// BRK pushes the return address and the status with the break-command
    /// and always-one bits set, then jumps through the `0xFFFE` vector.
    fn brk(&mut self)
        requires
            old(self).wf(),
        ensures
            final(self).wf(),
            old(self).program_counter < 0xFFFF ==> {
                &&& final(self).bus.cpu_vram@ == old(self).bus.cpu_vram@.update(
                    0x100 + old(self).stack_pointer,
                    (((old(self).program_counter + 1) as u16) >> 8) as u8,
                ).update(
                    0x100 + (old(self).stack_pointer - 1) % 256,
                    (((old(self).program_counter + 1) as u16) & 0xFF) as u8,
                ).update(
                    0x100 + (old(self).stack_pointer - 2) % 256,
                    status::spec_php_pushed(old(self).status_reg.status),
                )
                &&& final(self).bus == (Bus {
                    cpu_vram: final(self).bus.cpu_vram,
                    ..old(self).bus
                })
                &&& *final(self) == (CPU6502 {
                    program_counter: (crate::bus::spec_prg_byte(old(self).bus.prg_rom@, 0xFFFE)
                        + crate::bus::spec_prg_byte(old(self).bus.prg_rom@, 0xFFFF) * 0x100) as u16,
                    stack_pointer: ((old(self).stack_pointer - 3) % 256) as u8,
                    status_reg: (StatusReg {
                        status: old(self).status_reg.status | INTERRUPT_DISABLE,
                    }),
                    bus: final(self).bus,
                    ..*old(self)
                })
            },
    {
        let ret = self.program_counter.wrapping_add(1);
        self.push_stack_u16(ret);
        self.push_stack(self.status_reg.status | BREAK_COMMAND | ONE_FLAG);
        self.status_reg.set_flag(INTERRUPT_DISABLE);

        let handler_addr = self.bus.mem_read_u16(BRK_INTR_HANDLER_ADDR);
        self.program_counter = handler_addr;
    }

    /// RTI pops the status (break cleared, always-one forced) and then the
    /// return address.
    fn rti(&mut self)
        requires
            old(self).wf(),
        ensures
            final(self).wf(),
            final(self).status_reg.status & BREAK_COMMAND == 0,
            final(self).status_reg.status & ONE_FLAG == ONE_FLAG,
    {
        let v = self.pop_stack();
        self.status_reg.status = v;
        self.status_reg.set_flag(ONE_FLAG);
        self.status_reg.unset_flag(BREAK_COMMAND);
        proof {
            crate::bits::lemma_u8_masks();
        }
        let ret = self.pop_stack_u16();
        self.program_counter = ret;
    }

    // flag operations

    fn clc(&mut self)
        requires
            old(self).wf(),
        ensures
            final(self).wf(),
            !flag_set(final(self).status_reg.status, CARRY_FLAG),
            final(self).bus == old(self).bus,
    {
        self.status_reg.unset_flag(CARRY_FLAG);
        proof {
            lemma_flag_update(old(self).status_reg.status, CARRY_FLAG);
        }
    }

    fn sec(&mut self)
        requires
            old(self).wf(),
        ensures
            final(self).wf(),
            flag_set(final(self).status_reg.status, CARRY_FLAG),
            final(self).bus == old(self).bus,
    {
        self.status_reg.set_flag(CARRY_FLAG);
        proof {
            lemma_flag_update(old(self).status_reg.status, CARRY_FLAG);
        }
    }

    /// The decimal-mode bit is writable but has no arithmetic effect.
    fn cld(&mut self)
        requires
            old(self).wf(),
        ensures
            final(self).wf(),
            !flag_set(final(self).status_reg.status, DECIMAL_MODE),
            final(self).bus == old(self).bus,
    {
        self.status_reg.unset_flag(DECIMAL_MODE);
        proof {
            lemma_flag_update(old(self).status_reg.status, DECIMAL_MODE);
        }
    }

    fn sed(&mut self)
        requires
            old(self).wf(),
        ensures
            final(self).wf(),
            flag_set(final(self).status_reg.status, DECIMAL_MODE),
            final(self).bus == old(self).bus,
    {
        self.status_reg.set_flag(DECIMAL_MODE);
        proof {
            lemma_flag_update(old(self).status_reg.status, DECIMAL_MODE);
        }
    }

    fn cli(&mut self)
        requires
            old(self).wf(),
        ensures
            final(self).wf(),
            !flag_set(final(self).status_reg.status, INTERRUPT_DISABLE),
            final(self).bus == old(self).bus,
    {
        self.status_reg.unset_flag(INTERRUPT_DISABLE);
        proof {
            lemma_flag_update(old(self).status_reg.status, INTERRUPT_DISABLE);
        }
    }

    fn sei(&mut self)
        requires
            old(self).wf(),
        ensures
            final(self).wf(),
            flag_set(final(self).status_reg.status, INTERRUPT_DISABLE),
            final(self).bus == old(self).bus,
    {
        self.status_reg.set_flag(INTERRUPT_DISABLE);
        proof {
            lemma_flag_update(old(self).status_reg.status, INTERRUPT_DISABLE);
        }
    }

    fn clv(&mut self)
        requires
            old(self).wf(),
        ensures
            final(self).wf(),
            !flag_set(final(self).status_reg.status, OVERFLOW_FLAG),
            final(self).bus == old(self).bus,
    {
        self.status_reg.unset_flag(OVERFLOW_FLAG);
        proof {
            lemma_flag_update(old(self).status_reg.status, OVERFLOW_FLAG);
        }
    }

    fn nop(&mut self)
        requires
            old(self).wf(),
        ensures
            final(self).wf(),
            *final(self) == *old(self),
    {
    }

    // documented illegal opcodes

    fn aso(&mut self, mode: AddressingMode)
        requires
            old(self).wf(),
            mode != AddressingMode::Implicit && mode != AddressingMode::Accumulator,
        ensures
            final(self).wf(),
    {
        self.asl(mode);
        self.ora(mode);
    }

    fn rla(&mut self, mode: AddressingMode)
        requires
            old(self).wf(),
            mode != AddressingMode::Implicit && mode != AddressingMode::Accumulator,
        ensures
            final(self).wf(),
    {
        self.rol(mode);
        self.and(mode);
    }

    fn lse(&mut self, mode: AddressingMode)
        requires
            old(self).wf(),
            mode != AddressingMode::Implicit && mode != AddressingMode::Accumulator,
        ensures
            final(self).wf(),
    {
        self.lsr(mode);
        self.eor(mode);
    }

    fn rra(&mut self, mode: AddressingMode)
        requires
            old(self).wf(),
            mode != AddressingMode::Implicit && mode != AddressingMode::Accumulator,
        ensures
            final(self).wf(),
    {
        self.ror(mode);
        self.adc(mode);
    }

    /// Stores A AND X.
    fn sax(&mut self, mode: AddressingMode)
        requires
            old(self).wf(),
            mode != AddressingMode::Implicit && mode != AddressingMode::Accumulator,
        ensures
            final(self).wf(),
    {
        let res = self.accumulator & self.indx_reg_x;
        let addr = self.get_operand_addr(mode);
        self.bus.mem_write(addr, res);
    }

    fn lax(&mut self, mode: AddressingMode)
        requires
            old(self).wf(),
            mode != AddressingMode::Implicit && mode != AddressingMode::Accumulator,
        ensures
            final(self).wf(),
    {
        self.lda(mode);
        self.ldx(mode);
    }

    fn dcm(&mut self, mode: AddressingMode)
        requires
            old(self).wf(),
            mode != AddressingMode::Implicit && mode != AddressingMode::Accumulator,
        ensures
            final(self).wf(),
    {
        self.dec(mode);
        self.cmp(mode);
    }

    fn ins(&mut self, mode: AddressingMode)
        requires
            old(self).wf(),
            mode != AddressingMode::Implicit && mode != AddressingMode::Accumulator,
        ensures
            final(self).wf(),
    {
        self.inc(mode);
        self.sbc(mode);
    }

    fn alr(&mut self, mode: AddressingMode)
        requires
            old(self).wf(),
            mode != AddressingMode::Implicit && mode != AddressingMode::Accumulator,
        ensures
            final(self).wf(),
    {
        self.and(mode);
        let carry = (self.accumulator & 0x01) != 0;
        let res = self.accumulator >> 1;

        self.update_carry_flag(carry);
        self.update_zero_and_negative(res);
        self.accumulator = res;
    }

    fn arr(&mut self, mode: AddressingMode)
        requires
            old(self).wf(),
            mode != AddressingMode::Implicit && mode != AddressingMode::Accumulator,
        ensures
            final(self).wf(),
    {
        self.and(mode);
        let a = self.accumulator;
        let res = (a >> 1) | (a << 7);
        let carry = ((res >> 6) & 0x01) != 0;
        let overflow = ((res >> 6) ^ (res >> 5)) != 0;

        self.update_carry_flag(carry);
        self.update_overflow_flag(overflow);
        self.update_zero_and_negative(res);
        self.accumulator = res;
    }

    fn xaa(&mut self, mode: AddressingMode)
        requires
            old(self).wf(),
            mode != AddressingMode::Implicit && mode != AddressingMode::Accumulator,
        ensures
            final(self).wf(),
    {
        self.txa();
        self.and(mode);
    }

    /// A AND X minus the operand lands in X, with compare-style flags.
    fn axs(&mut self, mode: AddressingMode)
        requires
            old(self).wf(),
            mode != AddressingMode::Implicit && mode != AddressingMode::Accumulator,
        ensures
            final(self).wf(),
    {
        let res = self.accumulator & self.indx_reg_x;
        let addr = self.get_operand_addr(mode);
        let val = self.bus.mem_read(addr);
        let carry = res >= val;
        self.indx_reg_x = res.wrapping_sub(val);

        self.update_carry_flag(carry);
        let x = self.indx_reg_x;
        self.update_zero_and_negative(x);
    }

    /// The unusable opcode class: the trap is sticky and the CPU refuses to
    /// step further.
    fn hlt(&mut self)
        requires
            old(self).wf(),
        ensures
            final(self).wf(),
            final(self).trapped,
    {
        self.trapped = true;
    }

    fn tas(&mut self, mode: AddressingMode)
        requires
            old(self).wf(),
            mode != AddressingMode::Implicit && mode != AddressingMode::Accumulator,
        ensures
            final(self).wf(),
    {
        let mut res = self.accumulator & self.indx_reg_x;
        self.stack_pointer = res;
        let un_indxd_addr = self.bus.mem_read(self.program_counter.wrapping_add(1)).wrapping_add(
            1,
        );
        res &= un_indxd_addr;

        let addr = self.get_operand_addr(mode);
        self.bus.mem_write(addr, res);
    }

    fn say(&mut self, mode: AddressingMode)
        requires
            old(self).wf(),
            mode != AddressingMode::Implicit && mode != AddressingMode::Accumulator,
        ensures
            final(self).wf(),
    {
        let un_indexd_addr = self.bus.mem_read(self.program_counter.wrapping_add(1)).wrapping_add(
            1,
        );
        let res = un_indexd_addr & self.indx_reg_y;

        let addr = self.get_operand_addr(mode);
        self.bus.mem_write(addr, res);
    }

    fn xas(&mut self, mode: AddressingMode)
        requires
            old(self).wf(),
            mode != AddressingMode::Implicit && mode != AddressingMode::Accumulator,
        ensures
            final(self).wf(),
    {
        let un_indexd_addr = self.bus.mem_read(self.program_counter.wrapping_add(1)).wrapping_add(
            1,
        );
        let res = un_indexd_addr & self.indx_reg_x;

        let addr = self.get_operand_addr(mode);
        self.bus.mem_write(addr, res);
    }

    fn axa(&mut self, mode: AddressingMode)
        requires
            old(self).wf(),
            mode != AddressingMode::Implicit && mode != AddressingMode::Accumulator,
        ensures
            final(self).wf(),
    {
        let un_indexd_addr = self.bus.mem_read(self.program_counter.wrapping_add(1)).wrapping_add(
            1,
        );
        let res = un_indexd_addr & self.accumulator & self.indx_reg_x;

        let addr = self.get_operand_addr(mode);
        self.bus.mem_write(addr, res);
    }

    fn anc(&mut self, mode: AddressingMode)
        requires
            old(self).wf(),
            mode != AddressingMode::Implicit && mode != AddressingMode::Accumulator,
        ensures
            final(self).wf(),
    {
        self.and(mode);
        let carry = (self.accumulator & NEGATIVE_FLAG) != 0;
        self.update_carry_flag(carry);
    }

    fn las(&mut self, mode: AddressingMode)
        requires
            old(self).wf(),
            mode != AddressingMode::Implicit && mode != AddressingMode::Accumulator,
        ensures
            final(self).wf(),
    {
        let addr = self.get_operand_addr(mode);
        let val = self.bus.mem_read(addr);
        let res = val & self.stack_pointer;

        self.indx_reg_x = res;
        self.accumulator = res;
        self.stack_pointer = res;

        self.update_zero_and_negative(res);
    }

    /// The operand's current value: the accumulator for accumulator mode,
    /// else the byte at the operand address.
    fn get_val_by_mode(&mut self, mode: AddressingMode) -> (r: u8)
        requires
            old(self).wf(),
            mode != AddressingMode::Implicit,
        ensures
            final(self).wf(),
            mode == AddressingMode::Accumulator ==> r == old(self).accumulator && *final(self)
                == *old(self),
    {
        if mode == AddressingMode::Accumulator {
            self.accumulator
        } else {
            let addr = self.get_operand_addr(mode);
            self.bus.mem_read(addr)
        }
    }

    fn set_val_by_mode(&mut self, mode: AddressingMode, val: u8)
        requires
            old(self).wf(),
            mode != AddressingMode::Implicit,
        ensures
            final(self).wf(),
            mode == AddressingMode::Accumulator ==> final(self).accumulator == val && *final(self)
                == (CPU6502 { accumulator: val, ..*old(self) }),
    {
        if mode == AddressingMode::Accumulator {
            self.accumulator = val;
        } else {
            let addr = self.get_operand_addr(mode);
            self.bus.mem_write(addr, val);
        }
    }

    // flag update helpers

    fn update_carry_flag(&mut self, carry: bool)
        requires
            old(self).wf(),
        ensures
            final(self).wf(),
            flag_set(final(self).status_reg.status, CARRY_FLAG) == carry,
            final(self).status_reg.status == if carry {
                old(self).status_reg.status | CARRY_FLAG
            } else {
                old(self).status_reg.status & !CARRY_FLAG
            },
            final(self).status_reg.status & !CARRY_FLAG == old(self).status_reg.status
                & !CARRY_FLAG,
            *final(self) == (CPU6502 { status_reg: final(self).status_reg, ..*old(self) }),
    {
        proof {
            lemma_flag_update(old(self).status_reg.status, CARRY_FLAG);
        }
        if carry {
            self.status_reg.set_flag(CARRY_FLAG);
        } else {
            self.status_reg.unset_flag(CARRY_FLAG);
        }
    }

    fn update_zero_flag(&mut self, reg: u8)
        requires
            old(self).wf(),
        ensures
            final(self).wf(),
            flag_set(final(self).status_reg.status, ZERO_FLAG) == (reg == 0),
            final(self).status_reg.status == if reg == 0 {
                old(self).status_reg.status | ZERO_FLAG
            } else {
                old(self).status_reg.status & !ZERO_FLAG
            },
            final(self).status_reg.status & !ZERO_FLAG == old(self).status_reg.status
                & !ZERO_FLAG,
            *final(self) == (CPU6502 { status_reg: final(self).status_reg, ..*old(self) }),
    {
        proof {
            lemma_flag_update(old(self).status_reg.status, ZERO_FLAG);
        }
        if reg == 0 {
            self.status_reg.set_flag(ZERO_FLAG);
        } else {
            self.status_reg.unset_flag(ZERO_FLAG);
        }
    }

    fn update_overflow_flag(&mut self, overflow: bool)
        requires
            old(self).wf(),
        ensures
            final(self).wf(),
            flag_set(final(self).status_reg.status, OVERFLOW_FLAG) == overflow,
            final(self).status_reg.status & !OVERFLOW_FLAG == old(self).status_reg.status
                & !OVERFLOW_FLAG,
            *final(self) == (CPU6502 { status_reg: final(self).status_reg, ..*old(self) }),
    {
        proof {
            lemma_flag_update(old(self).status_reg.status, OVERFLOW_FLAG);
        }
        if overflow {
            self.status_reg.set_flag(OVERFLOW_FLAG);
        } else {
            self.status_reg.unset_flag(OVERFLOW_FLAG);
        }
    }

    fn update_negative_flag(&mut self, reg: u8)
        requires
            old(self).wf(),
        ensures
            final(self).wf(),
            flag_set(final(self).status_reg.status, NEGATIVE_FLAG) == (reg >= 0x80),
            final(self).status_reg.status == if reg >= 0x80 {
                old(self).status_reg.status | NEGATIVE_FLAG
            } else {
                old(self).status_reg.status & !NEGATIVE_FLAG
            },
            final(self).status_reg.status & !NEGATIVE_FLAG == old(self).status_reg.status
                & !NEGATIVE_FLAG,
            *final(self) == (CPU6502 { status_reg: final(self).status_reg, ..*old(self) }),
    {
        proof {
            lemma_flag_update(old(self).status_reg.status, NEGATIVE_FLAG);
            crate::bits::lemma_u8_masks();
        }
        if reg & 0x80 != 0 {
            self.status_reg.set_flag(NEGATIVE_FLAG);
        } else {
            self.status_reg.unset_flag(NEGATIVE_FLAG);
        }
    }

    /// Zero and negative both follow the value, and no other flag moves.
    fn update_zero_and_negative(&mut self, reg: u8)
        requires
            old(self).wf(),
        ensures
            final(self).wf(),
            flag_set(final(self).status_reg.status, ZERO_FLAG) == (reg == 0),
            flag_set(final(self).status_reg.status, NEGATIVE_FLAG) == (reg >= 0x80),
            final(self).status_reg.status == spec_update_zn(old(self).status_reg.status, reg),
            final(self).status_reg.status & !ZERO_FLAG & !NEGATIVE_FLAG == old(self).status_reg.status & !ZERO_FLAG & !NEGATIVE_FLAG,
            *final(self) == (CPU6502 { status_reg: final(self).status_reg, ..*old(self) }),
    {
        let ghost mid: u8;
        self.update_zero_flag(reg);
        proof {
            mid = self.status_reg.status;
        }
        self.update_negative_flag(reg);
        proof {
            crate::bits::lemma_flag_constants();
            lemma_flag_disjoint(mid, ZERO_FLAG, NEGATIVE_FLAG);
            assert(forall|s: u8|
                (#[trigger] (s & !0x80u8)) & 0x02u8 == s & 0x02u8 && (s & !0x80) & !0x02 & !0x80
                    == s & !0x02 & !0x80 && (s | 0x80) & 0x02 == s & 0x02 && (s | 0x80) & !0x02
                    & !0x80 == s & !0x02 & !0x80) by (bit_vector);
        }
    }

    /// Where the PC lands after the handler, when the handler itself did
    /// not move it: the mode's operand length is added.
    fn move_pc(&mut self, mode: AddressingMode, pc_before_inst: u16)
        requires
            old(self).wf(),
        ensures
            final(self).wf(),
            *final(self) == (CPU6502 { program_counter: final(self).program_counter, ..*old(self) }),
            old(self).program_counter != pc_before_inst ==> final(self).program_counter == old(self).program_counter,
            old(self).program_counter == pc_before_inst && (mode == AddressingMode::Implicit
                || mode == AddressingMode::Accumulator) ==> final(self).program_counter
                == pc_before_inst,
            old(self).program_counter == pc_before_inst && pc_before_inst < 0xFFF0 && (mode
                == AddressingMode::Immediate || mode == AddressingMode::ZeroPage || mode
                == AddressingMode::ZeroPageX || mode == AddressingMode::ZeroPageY || mode
                == AddressingMode::Relative || mode == AddressingMode::IndexedIndirectX || mode
                == AddressingMode::IndirectIndexedY) ==> final(self).program_counter == (
            pc_before_inst + 1) as u16,
            old(self).program_counter == pc_before_inst && pc_before_inst < 0xFFF0 && (mode
                == AddressingMode::Absolute || mode == AddressingMode::AbsoluteX || mode
                == AddressingMode::AbsoluteY || mode == AddressingMode::Indirect) ==> final(self).program_counter == (pc_before_inst + 2) as u16,
    {
        if pc_before_inst == self.program_counter {
            self.program_counter = self.program_counter.wrapping_add(
                num_of_address_mode_bytes(mode),
            );
        }
    }

    /// Decode-and-execute for one opcode byte: dispatches through the
    /// 256-entry table, clocks the bus by the base cycles plus the branch
    /// and page-cross penalties, and steps the PC by the operand length.
    /// Returns whether the opcode was BRK.
    fn op_code_instraction(&mut self, op_code: u8) -> (is_break: bool)
        requires
            old(self).wf(),
        ensures
            final(self).wf(),
            is_break == (op_code == 0),
            ({
                let pre = spec_core(*old(self));
                old(self).bus.ppu.nmi_interrupt is None && old(self).bus.ppu.ctrl_reg.flags & 0x80
                    == 0 && old(self).trapped == false && pre.status & INTERRUPT_DISABLE != 0
                    && 0x8000 < pre.program_counter <= 0xFFE0 && (op_code == 0x6C
                    ==> crate::bus::spec_pure_addr(
                    core_word(pre, pre.program_counter) as u16,
                )) && (spec_exec_op(pre, op_code) matches Some((post, halt))) ==> {
                    &&& spec_core(*final(self)) == spec_exec_op(pre, op_code)->Some_0.0
                    &&& is_break == spec_exec_op(pre, op_code)->Some_0.1
                    &&& !final(self).trapped
                    &&& final(self).bus.ppu.nmi_interrupt is None
                    &&& final(self).bus.ppu.ctrl_reg.flags & 0x80 == 0
                }
            }),
    {
        let opcode = opcode_lookup(op_code);
        let pc_before_inst = self.program_counter;
        let is_break = op_code == 0x00;

        self.page_crossed = false;
        self.branch_taken = false;

        self.execute(opcode.instraction, opcode.addr_mode);
        let ghost after_exec = *self;

        let penalty: u8 = (if self.page_crossed {
            1u8
        } else {
            0u8
        }) + (if self.branch_taken {
            1u8
        } else {
            0u8
        });
        self.bus.tick(opcode.cycles + penalty);
        let ghost after_tick = *self;

        self.move_pc(opcode.addr_mode, pc_before_inst);

        proof {
            let pre = spec_core(*old(self));
            let guard = old(self).bus.ppu.nmi_interrupt is None && old(self).bus.ppu.ctrl_reg.flags & 0x80 == 0 && old(self).trapped == false && pre.status
                & INTERRUPT_DISABLE != 0 && 0x8000 < pre.program_counter <= 0xFFE0 && (op_code
                == 0x6C ==> crate::bus::spec_pure_addr(
                core_word(pre, pre.program_counter) as u16,
            ));
            if guard && spec_exec_op(pre, op_code) is Some {
                let post = spec_exec_op(pre, op_code)->Some_0.0;
                assert(spec_core(after_tick) == spec_core(after_exec));
                if op_code == 0xA9 {
                    assert(spec_core(*self) =~= post);
                } else if op_code == 0xA2 {
                    assert(spec_core(*self) =~= post);
                } else if op_code == 0xA0 {
                    assert(spec_core(*self) =~= post);
                } else if op_code == 0xA5 {
                    assert(spec_core(*self) =~= post);
                } else if op_code == 0x85 {
                    assert(spec_core(*self) =~= post);
                } else if op_code == 0xAA {
                    assert(spec_core(*self) =~= post);
                } else if op_code == 0xE8 {
                    assert(spec_core(*self) =~= post);
                } else if op_code == 0x6C {
                    assert(spec_core(*self) =~= post);
                } else {
                    assert(op_code == 0x00);
                    assert(spec_core(*self) =~= post);
                }
            }
        }
        is_break
    }

    /// One handler call. The table pairs every instruction with a mode its
    /// handler accepts; a pairing the hardware does not have falls through
    /// as a no-operation.
    #[verifier::rlimit(60)]
    fn execute(&mut self, instr: Instruction, mode: AddressingMode)
        requires
            old(self).wf(),
        ensures
            final(self).wf(),
            ({
                let pre = *old(self);
                let byte_at_pc = crate::bus::spec_cpu_byte(pre.bus, pre.program_counter);
                let pure_pc = crate::bus::spec_pure_addr(pre.program_counter);
                &&& (instr == Instruction::Lda && mode == AddressingMode::Immediate && pure_pc
                    ==> *final(self) == spec_loaded_a(pre, byte_at_pc))
                &&& (instr == Instruction::Ldx && mode == AddressingMode::Immediate && pure_pc
                    ==> *final(self) == spec_loaded_x(pre, byte_at_pc))
                &&& (instr == Instruction::Ldy && mode == AddressingMode::Immediate && pure_pc
                    ==> *final(self) == spec_loaded_y(pre, byte_at_pc))
                &&& (instr == Instruction::Lda && mode == AddressingMode::ZeroPage && pure_pc
                    ==> *final(self) == spec_loaded_a(
                    pre,
                    crate::bus::spec_cpu_byte(pre.bus, byte_at_pc as u16),
                ))
                &&& (instr == Instruction::Sta && mode == AddressingMode::ZeroPage && pure_pc
                    ==> final(self).bus.cpu_vram@ == pre.bus.cpu_vram@.update(
                    byte_at_pc as int,
                    pre.accumulator,
                ) && *final(self) == (CPU6502 {
                    bus: (Bus { cpu_vram: final(self).bus.cpu_vram, ..pre.bus }),
                    ..pre
                }))
                &&& (instr == Instruction::Tax ==> *final(self) == (CPU6502 {
                    indx_reg_x: pre.accumulator,
                    status_reg: (StatusReg {
                        status: spec_update_zn(pre.status_reg.status, pre.accumulator),
                    }),
                    ..pre
                }))
                &&& (instr == Instruction::Inx ==> *final(self) == (CPU6502 {
                    indx_reg_x: ((pre.indx_reg_x + 1) % 256) as u8,
                    status_reg: (StatusReg {
                        status: spec_update_zn(
                            pre.status_reg.status,
                            ((pre.indx_reg_x + 1) % 256) as u8,
                        ),
                    }),
                    ..pre
                }))
                &&& (instr == Instruction::Jmp && mode == AddressingMode::Indirect && 0x8000
                    <= pre.program_counter && pre.program_counter < 0xFFF0
                    && crate::bus::spec_pure_addr(
                    crate::bus::spec_cpu_word(pre.bus, pre.program_counter) as u16,
                ) ==> {
                    let ptr = crate::bus::spec_cpu_word(pre.bus, pre.program_counter) as u16;
                    let addrs = spec_indirect_ptr_addrs(ptr);
                    *final(self) == (CPU6502 {
                        program_counter: (crate::bus::spec_cpu_byte(pre.bus, addrs.0)
                            + crate::bus::spec_cpu_byte(pre.bus, addrs.1) * 0x100) as u16,
                        ..pre
                    })
                })
                &&& (instr == Instruction::Brk && pre.program_counter < 0xFFFF ==> {
                    &&& final(self).bus.cpu_vram@ == pre.bus.cpu_vram@.update(
                        0x100 + pre.stack_pointer,
                        (((pre.program_counter + 1) as u16) >> 8) as u8,
                    ).update(
                        0x100 + (pre.stack_pointer - 1) % 256,
                        (((pre.program_counter + 1) as u16) & 0xFF) as u8,
                    ).update(
                        0x100 + (pre.stack_pointer - 2) % 256,
                        status::spec_php_pushed(pre.status_reg.status),
                    )
                    &&& *final(self) == (CPU6502 {
                        program_counter: (crate::bus::spec_prg_byte(pre.bus.prg_rom@, 0xFFFE)
                            + crate::bus::spec_prg_byte(pre.bus.prg_rom@, 0xFFFF) * 0x100) as u16,
                        stack_pointer: ((pre.stack_pointer - 3) % 256) as u8,
                        status_reg: (StatusReg {
                            status: pre.status_reg.status | INTERRUPT_DISABLE,
                        }),
                        bus: (Bus { cpu_vram: final(self).bus.cpu_vram, ..pre.bus }),
                        ..pre
                    })
                })
            }),
    {
        let has_operand = mode != AddressingMode::Implicit && mode != AddressingMode::Accumulator;
        match instr {
            Instruction::Brk => self.brk(),
            Instruction::Ora => if has_operand {
                self.ora(mode)
            },
            Instruction::Hlt => self.hlt(),
            Instruction::Aso => if has_operand {
                self.aso(mode)
            },
            Instruction::Nop => self.nop(),
            Instruction::Asl => if mode != AddressingMode::Implicit {
                self.asl(mode)
            } else {
                self.asl(AddressingMode::Accumulator)
            },
            Instruction::Php => self.php(),
            Instruction::Anc => if has_operand {
                self.anc(mode)
            },
            Instruction::Bpl => if mode == AddressingMode::Relative {
                self.bpl(mode)
            },
            Instruction::Clc => self.clc(),
            Instruction::Jsr => if mode == AddressingMode::Absolute {
                self.jsr(mode)
            },
            Instruction::And => if has_operand {
                self.and(mode)
            },
            Instruction::Rla => if has_operand {
                self.rla(mode)
            },
            Instruction::Bit => if has_operand {
                self.bit(mode)
            },
            Instruction::Rol => if mode != AddressingMode::Implicit {
                self.rol(mode)
            } else {
                self.rol(AddressingMode::Accumulator)
            },
            Instruction::Plp => self.plp(),
            Instruction::Bmi => if mode == AddressingMode::Relative {
                self.bmi(mode)
            },
            Instruction::Sec => self.sec(),
            Instruction::Rti => self.rti(),
            Instruction::Eor => if has_operand {
                self.eor(mode)
            },
            Instruction::Lse => if has_operand {
                self.lse(mode)
            },
            Instruction::Lsr => if mode != AddressingMode::Implicit {
                self.lsr(mode)
            } else {
                self.lsr(AddressingMode::Accumulator)
            },
            Instruction::Pha => self.pha(),
            Instruction::Alr => if has_operand {
                self.alr(mode)
            },
            Instruction::Jmp => if mode == AddressingMode::Indirect || mode
                == AddressingMode::Absolute {
                proof {
                    crate::bits::lemma_u16_facts();
                }
                self.jmp(mode)
            },
            Instruction::Bvc => if mode == AddressingMode::Relative {
                self.bvc(mode)
            },
            Instruction::Cli => self.cli(),
            Instruction::Rts => self.rts(),
            Instruction::Adc => if has_operand {
                self.adc(mode)
            },
            Instruction::Rra => if has_operand {
                self.rra(mode)
            },
            Instruction::Ror => if mode != AddressingMode::Implicit {
                self.ror(mode)
            } else {
                self.ror(AddressingMode::Accumulator)
            },
            Instruction::Pla => self.pla(),
            Instruction::Arr => if has_operand {
                self.arr(mode)
            },
            Instruction::Bvs => if mode == AddressingMode::Relative {
                self.bvs(mode)
            },
            Instruction::Sei => self.sei(),
            Instruction::Sta => if has_operand {
                self.sta(mode)
            },
            Instruction::Sax => if has_operand {
                self.sax(mode)
            },
            Instruction::Sty => if has_operand {
                self.sty(mode)
            },
            Instruction::Stx => if has_operand {
                self.stx(mode)
            },
            Instruction::Dey => self.dey(),
            Instruction::Txa => self.txa(),
            Instruction::Xaa => if has_operand {
                self.xaa(mode)
            },
            Instruction::Bcc => if mode == AddressingMode::Relative {
                self.bcc(mode)
            },
            Instruction::Axa => if has_operand {
                self.axa(mode)
            },
            Instruction::Tya => self.tya(),
            Instruction::Txs => self.txs(),
            Instruction::Tas => if has_operand {
                self.tas(mode)
            },
            Instruction::Say => if has_operand {
                self.say(mode)
            },
            Instruction::Xas => if has_operand {
                self.xas(mode)
            },
            Instruction::Ldy => if has_operand {
                self.ldy(mode)
            },
            Instruction::Lda => if has_operand {
                self.lda(mode)
            },
            Instruction::Ldx => if has_operand {
                self.ldx(mode)
            },
            Instruction::Lax => if has_operand {
                self.lax(mode)
            },
            Instruction::Tay => self.tay(),
            Instruction::Tax => self.tax(),
            Instruction::Bcs => if mode == AddressingMode::Relative {
                self.bcs(mode)
            },
            Instruction::Clv => self.clv(),
            Instruction::Tsx => self.tsx(),
            Instruction::Las => if has_operand {
                self.las(mode)
            },
            Instruction::Cpy => if has_operand {
                self.cpy(mode)
            },
            Instruction::Cmp => if has_operand {
                self.cmp(mode)
            },
            Instruction::Dcm => if has_operand {
                self.dcm(mode)
            },
            Instruction::Iny => self.iny(),
            Instruction::Dex => self.dex(),
            Instruction::Bne => if mode == AddressingMode::Relative {
                self.bne(mode)
            },
            Instruction::Cld => self.cld(),
            Instruction::Cpx => if has_operand {
                self.cpx(mode)
            },
            Instruction::Sbc => if has_operand {
                self.sbc(mode)
            } else {
                self.sbc(AddressingMode::Immediate)
            },
            Instruction::Ins => if has_operand {
                self.ins(mode)
            },
            Instruction::Inx => self.inx(),
            Instruction::Sed => self.sed(),
            Instruction::Beq => if mode == AddressingMode::Relative {
                self.beq(mode)
            },
            Instruction::Axs => if has_operand {
                self.axs(mode)
            },
            Instruction::Dec => if has_operand {
                self.dec(mode)
            },
            Instruction::Inc => if has_operand {
                self.inc(mode)
            },
        }
    }

    /// The operand address for a mode; immediate and relative
    /// operands live at the PC itself.
    fn get_operand_addr(&mut self, mode: AddressingMode) -> (r: u16)
        requires
            old(self).wf(),
            mode != AddressingMode::Implicit && mode != AddressingMode::Accumulator,
        ensures
            final(self).wf(),
            final(self).program_counter == old(self).program_counter,
            final(self).accumulator == old(self).accumulator,
            final(self).indx_reg_x == old(self).indx_reg_x,
            final(self).indx_reg_y == old(self).indx_reg_y,
            final(self).status_reg == old(self).status_reg,
            final(self).stack_pointer == old(self).stack_pointer,
            mode == AddressingMode::Immediate || mode == AddressingMode::Relative || mode
                == AddressingMode::Indirect ==> r == old(self).program_counter && *final(self)
                == *old(self),
            mode == AddressingMode::ZeroPage && crate::bus::spec_pure_addr(
                old(self).program_counter,
            ) ==> r == crate::bus::spec_cpu_byte(old(self).bus, old(self).program_counter)
                && *final(self) == *old(self) && r < 0x100,
    {
        match mode {
            AddressingMode::Immediate => self.program_counter,
            AddressingMode::ZeroPage => {
                let addr = self.bus.mem_read(self.program_counter);
                addr as u16
            },
            AddressingMode::ZeroPageX => {
                let param = self.bus.mem_read(self.program_counter);
                let addr = self.indx_reg_x.wrapping_add(param);
                addr as u16
            },
            AddressingMode::ZeroPageY => {
                let param = self.bus.mem_read(self.program_counter);
                let addr = self.indx_reg_y.wrapping_add(param);
                addr as u16
            },
            AddressingMode::Relative => self.program_counter,
            AddressingMode::Absolute => self.bus.mem_read_u16(self.program_counter),
            AddressingMode::AbsoluteX => {
                let param = self.bus.mem_read_u16(self.program_counter);
                let addr = param.wrapping_add(self.indx_reg_x as u16);
                self.page_crossed = page_cross(param, addr);
                addr
            },
            AddressingMode::AbsoluteY => {
                let param = self.bus.mem_read_u16(self.program_counter);
                let addr = param.wrapping_add(self.indx_reg_y as u16);
                self.page_crossed = page_cross(param, addr);
                addr
            },
            AddressingMode::Indirect => self.program_counter,
            AddressingMode::IndexedIndirectX => {
                let param = self.bus.mem_read(self.program_counter);
                let base = self.indx_reg_x.wrapping_add(param);
                let peek1 = self.bus.mem_read(base as u16);
                let peek2 = self.bus.mem_read(base.wrapping_add(1) as u16);
                proof {
                    crate::bits::lemma_le_combine(peek1, peek2);
                }
                peek1 as u16 | ((peek2 as u16) << 8)
            },
            AddressingMode::IndirectIndexedY => {
                let param = self.bus.mem_read(self.program_counter);
                let peek1 = self.bus.mem_read(param as u16);
                let peek2 = self.bus.mem_read(param.wrapping_add(1) as u16);
                proof {
                    crate::bits::lemma_le_combine(peek1, peek2);
                }
                let tmp = peek1 as u16 | ((peek2 as u16) << 8);
                let addr = tmp.wrapping_add(self.indx_reg_y as u16);
                self.page_crossed = page_cross(tmp, addr);
                addr
            },
            _ => 0,
        }
    }
}

/// The address of the low and high pointer bytes of an indirect JMP, with
/// the page-boundary bug: a pointer ending in `0xFF` takes its high byte
/// from the start of the same page.
pub open spec fn spec_indirect_ptr_addrs(ptr: u16) -> (u16, u16) {
    if ptr & 0x00FF == 0x00FF {
        (ptr, ptr & 0xFF00)
    } else {
        (ptr, (ptr + 1) as u16)
    }
}

/// Computes the two fetch addresses of an indirect JMP pointer, bug
/// included.
pub fn indirect_ptr_addrs(ptr: u16) -> (r: (u16, u16))
    ensures
        r == spec_indirect_ptr_addrs(ptr),
{
    if ptr & 0x00FF == 0x00FF {
        (ptr, ptr & 0xFF00)
    } else {
        proof {
            crate::bits::lemma_u16_facts();
        }
        (ptr, ptr + 1)
    }
}

/// For every page `xx`, an indirect pointer `0xxxFF` fetches its high byte
/// from `0xxx00`, not from the next page: the bug applies the same way on
/// every page.
pub proof fn lemma_indirect_jmp_page_bug(xx: u8)
    ensures
        spec_indirect_ptr_addrs(((xx as u16) << 8) | 0xFF).1 == (xx as u16) << 8,
        spec_indirect_ptr_addrs(((xx as u16) << 8) | 0xFF).0 == ((xx as u16) << 8) | 0xFF,
{
    assert((((xx as u16) << 8) | 0xFF) & 0x00FF == 0x00FF && (((xx as u16) << 8) | 0xFF) & 0xFF00
        == ((xx as u16) << 8)) by (bit_vector);
}

/// How many operand bytes follow the opcode in each mode.
pub fn num_of_address_mode_bytes(mode: AddressingMode) -> (r: u16)
    ensures
        r <= 2,
        mode == AddressingMode::Implicit || mode == AddressingMode::Accumulator ==> r == 0,
        mode == AddressingMode::Relative || mode == AddressingMode::Immediate || mode
            == AddressingMode::ZeroPage || mode == AddressingMode::ZeroPageX || mode
            == AddressingMode::ZeroPageY || mode == AddressingMode::IndexedIndirectX || mode
            == AddressingMode::IndirectIndexedY ==> r == 1,
        mode == AddressingMode::Absolute || mode == AddressingMode::AbsoluteX || mode
            == AddressingMode::AbsoluteY || mode == AddressingMode::Indirect ==> r == 2,
{
    match mode {
        AddressingMode::Implicit | AddressingMode::Accumulator => 0,
        AddressingMode::Relative | AddressingMode::Immediate | AddressingMode::ZeroPage
            | AddressingMode::ZeroPageX | AddressingMode::ZeroPageY
            | AddressingMode::IndexedIndirectX | AddressingMode::IndirectIndexedY => 1,
        AddressingMode::Absolute | AddressingMode::AbsoluteX | AddressingMode::AbsoluteY
            | AddressingMode::Indirect => 2,
    }
}

/// Whether two addresses lie in different 256-byte pages.
pub fn page_cross(arg: u16, res: u16) -> (r: bool)
    ensures
        r == (arg & 0xFF00 != res & 0xFF00),
{
    (arg & 0xFF00) != (res & 0xFF00)
}

} // verus!
