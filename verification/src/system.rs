//! The fetch-decode-execute engine over the four machine-state components.
//!
//! The effect of every instruction is stated once, as the specification
//! transition function [`spec_exec`] over the abstract machine state
//! [`SysState`]; the executable engine is proved to implement it exactly.

use crate::display::{spec_draw, ChipDisplay, DISPLAY_CELLS};
use crate::keyboard::{spec_any_pressed, spec_first_pressed, ChipKeyboard, KEY_COUNT};
use crate::memory::{font_seq, spec_opcode_at, ChipMemory, FONT_START, MAX_ROM_LEN, MEM_SIZE, PROG_START};
use crate::opcode::{op_h, op_kk, op_n, op_nnn, op_x, op_y, Opcode};
use crate::registers::{ChipRegisters, GP_COUNT, STACK_DEPTH};
use rand::Rng;
use vstd::prelude::*;

verus! {

/// A result of executing an opcode.
pub type ExResult<T> = Result<T, ExError>;

/// An error surfaced by a single execution step.  Every error is local to
/// the step that produced it: the machine state is left exactly as it was
/// before the offending instruction.
#[derive(Debug, Clone, PartialEq, Eq, Structural)]
pub enum ExError {
    /// The opcode (or its trailing selector within a group) is not part of
    /// the instruction set; carries the raw opcode value.
    Decode(u16),
    /// A subroutine call was attempted while the call stack already held 16
    /// return addresses.
    StackOverflow,
    /// A subroutine return was attempted while the call stack was empty.
    StackUnderflow,
}

impl ExError {
    /// A human-readable description of the error.
    pub fn describe(&self) -> String {
        match self {
            ExError::Decode(_) => "invalid opcode provided for execution".to_string(),
            ExError::StackOverflow => "call stack overflow".to_string(),
            ExError::StackUnderflow => "call stack underflow".to_string(),
        }
    }
}

/// The abstract state of the whole machine: the contents of the four state
/// components, as mathematical values.
#[verifier::ext_equal]
pub ghost struct SysState {
    /// The 4096 bytes of RAM.
    pub ram: Seq<u8>,
    /// Whether a program image has been loaded.
    pub loaded: bool,
    /// The sixteen general-purpose registers.
    pub gp: Seq<u8>,
    /// The sixteen call-stack slots.
    pub stack: Seq<u16>,
    /// The stack pointer: number of live stack entries.
    pub sp: int,
    /// The index register I.
    pub i: u16,
    /// The program counter.
    pub pc: u16,
    /// The delay timer.
    pub delay: u8,
    /// The sound timer.
    pub sound: u8,
    /// The 2048 display cells.
    pub grid: Seq<bool>,
    /// Whether the display changed since last observed.
    pub modified: bool,
    /// The sixteen key states.
    pub keys: Seq<bool>,
}

/// Truncation to 16 bits.
pub open spec fn wrap16(a: int) -> u16 {
    (a % 0x10000) as u16
}

/// Truncation to 8 bits.
pub open spec fn wrap8(a: int) -> u8 {
    (a % 256) as u8
}

/// Reduction of an address into the 4096-byte address space.
pub open spec fn mask12(a: int) -> int {
    a % (MEM_SIZE as int)
}

/// The state after the default program-counter advance: two bytes onward.
pub open spec fn adv(s: SysState) -> SysState {
    SysState { pc: wrap16(s.pc + 2), ..s }
}

/// The state after a conditional skip: the program counter moves past the
/// next instruction when `c` holds, and to the next instruction otherwise.
pub open spec fn skip_if(s: SysState, c: bool) -> SysState {
    if c {
        adv(adv(s))
    } else {
        adv(s)
    }
}

/// A timer decrement: toward zero, clamped at zero.
pub open spec fn dec_timer(t: u8) -> u8 {
    if t > 0 {
        (t - 1) as u8
    } else {
        0u8
    }
}

/// The state with general-purpose register `x` set to `v`.
pub open spec fn with_gp(s: SysState, x: int, v: u8) -> SysState {
    SysState { gp: s.gp.update(x, v), ..s }
}

/// An all-unlit display grid.
pub open spec fn blank_grid() -> Seq<bool> {
    Seq::new(DISPLAY_CELLS as nat, |c: int| false)
}

/// The bytes of a sprite: `n` consecutive RAM bytes starting at `i`,
/// addresses reduced into the address space.
pub open spec fn spec_rows(ram: Seq<u8>, i: int, n: int) -> Seq<u8> {
    Seq::new(n as nat, |k: int| ram[mask12(i + k)])
}

/// The RAM after storing registers 0 through `count - 1` at consecutive
/// addresses from `i` on, addresses reduced into the address space.
pub open spec fn spec_store_regs(ram: Seq<u8>, gp: Seq<u8>, i: int, count: int) -> Seq<u8>
    decreases count,
{
    if count <= 0 {
        ram
    } else {
        spec_store_regs(ram, gp, i, count - 1).update(mask12(i + (count - 1)), gp[count - 1])
    }
}

/// The register file after filling registers 0 through `x` from consecutive
/// RAM addresses from `i` on, addresses reduced into the address space.
pub open spec fn spec_load_regs(gp: Seq<u8>, ram: Seq<u8>, i: int, x: int) -> Seq<u8> {
    Seq::new(GP_COUNT as nat, |k: int| if k <= x { ram[mask12(i + k)] } else { gp[k] })
}

/// The effect of the arithmetic/logic/shift group (header nibble 8) on the
/// machine state.  Where an instruction defines the flag register, the flag
/// is written before the destination register, so an instruction whose
/// destination is register 15 leaves the arithmetic result there.
pub open spec fn spec_exec_alu(s: SysState, op: u16) -> (SysState, ExResult<()>) {
    let x = op_x(op) as int;
    let y = op_y(op) as int;
    let n = op_n(op);
    let vx = s.gp[x];
    let vy = s.gp[y];
    if n == 0 {
        (adv(with_gp(s, x, vy)), Ok(()))
    } else if n == 1 {
        (adv(with_gp(s, x, vx | vy)), Ok(()))
    } else if n == 2 {
        (adv(with_gp(s, x, vx & vy)), Ok(()))
    } else if n == 3 {
        (adv(with_gp(s, x, vx ^ vy)), Ok(()))
    } else if n == 4 {
        let flag: u8 = if vx + vy > 255 {
            1u8
        } else {
            0u8
        };
        (adv(SysState { gp: s.gp.update(15, flag).update(x, wrap8(vx + vy)), ..s }), Ok(()))
    } else if n == 5 {
        let flag: u8 = if vx < vy {
            0u8
        } else {
            1u8
        };
        (adv(SysState { gp: s.gp.update(15, flag).update(x, wrap8(vx - vy)), ..s }), Ok(()))
    } else if n == 6 {
        (
            adv(SysState { gp: s.gp.update(15, (vx % 2) as u8).update(x, (vx / 2) as u8), ..s }),
            Ok(()),
        )
    } else if n == 7 {
        let flag: u8 = if vy < vx {
            0u8
        } else {
            1u8
        };
        (adv(SysState { gp: s.gp.update(15, flag).update(x, wrap8(vy - vx)), ..s }), Ok(()))
    } else if n == 14 {
        (
            adv(
                SysState { gp: s.gp.update(15, (vx / 128) as u8).update(x, wrap8(vx * 2)), ..s },
            ),
            Ok(()),
        )
    } else {
        (s, Err(ExError::Decode(op)))
    }
}

/// The effect of the miscellaneous group (header nibble 15) on the machine
/// state: timers, key wait, index-register arithmetic, font glyph lookup,
/// BCD, and register block store/load.
pub open spec fn spec_exec_fx(s: SysState, op: u16) -> (SysState, ExResult<()>) {
    let x = op_x(op) as int;
    let kk = op_kk(op);
    if kk == 0x07 {
        (adv(with_gp(s, x, s.delay)), Ok(()))
    } else if kk == 0x0A {
        if spec_any_pressed(s.keys) {
            (adv(with_gp(s, x, spec_first_pressed(s.keys) as u8)), Ok(()))
        } else {
            (s, Ok(()))
        }
    } else if kk == 0x15 {
        (adv(SysState { delay: s.gp[x], ..s }), Ok(()))
    } else if kk == 0x18 {
        (adv(SysState { sound: s.gp[x], ..s }), Ok(()))
    } else if kk == 0x1E {
        (adv(SysState { i: wrap16(s.i + s.gp[x]), ..s }), Ok(()))
    } else if kk == 0x29 {
        (adv(SysState { i: (0x50 + 5 * (s.gp[x] % 16)) as u16, ..s }), Ok(()))
    } else if kk == 0x33 {
        let v = s.gp[x];
        let ram = s.ram.update(mask12(s.i as int), ((v / 100) % 10) as u8).update(
            mask12(s.i + 1),
            ((v / 10) % 10) as u8,
        ).update(mask12(s.i + 2), (v % 10) as u8);
        (adv(SysState { ram, ..s }), Ok(()))
    } else if kk == 0x55 {
        (
            adv(
                SysState {
                    ram: spec_store_regs(s.ram, s.gp, s.i as int, x + 1),
                    i: wrap16(s.i + x + 1),
                    ..s
                },
            ),
            Ok(()),
        )
    } else if kk == 0x65 {
        (adv(SysState { gp: spec_load_regs(s.gp, s.ram, s.i as int, x), ..s }), Ok(()))
    } else {
        (s, Err(ExError::Decode(op)))
    }
}

/// The effect of one instruction on the machine state: the state after the
/// instruction (including the program-counter advance where the instruction
/// does not set the program counter itself) and the step's result.  `rnd` is
/// the random byte consumed by the random-register instruction; every other
/// instruction ignores it.  On an error the state is returned unchanged.
pub open spec fn spec_exec(s: SysState, op: u16, rnd: u8) -> (SysState, ExResult<()>) {
    let h = op_h(op);
    let x = op_x(op) as int;
    let y = op_y(op) as int;
    let n = op_n(op);
    let kk = op_kk(op);
    let nnn = op_nnn(op);
    if h == 0 {
        if n == 0 {
            (adv(SysState { grid: blank_grid(), modified: true, ..s }), Ok(()))
        } else if n == 14 {
            if s.sp == 0 {
                (s, Err(ExError::StackUnderflow))
            } else {
                (adv(SysState { pc: s.stack[s.sp - 1], sp: s.sp - 1, ..s }), Ok(()))
            }
        } else {
            (adv(s), Ok(()))
        }
    } else if h == 1 {
        (SysState { pc: nnn, ..s }, Ok(()))
    } else if h == 2 {
        if s.sp == STACK_DEPTH {
            (s, Err(ExError::StackOverflow))
        } else {
            (SysState { stack: s.stack.update(s.sp, s.pc), sp: s.sp + 1, pc: nnn, ..s }, Ok(()))
        }
    } else if h == 3 {
        (skip_if(s, s.gp[x] == kk), Ok(()))
    } else if h == 4 {
        (skip_if(s, s.gp[x] != kk), Ok(()))
    } else if h == 5 {
        (skip_if(s, s.gp[x] == s.gp[y]), Ok(()))
    } else if h == 6 {
        (adv(with_gp(s, x, kk)), Ok(()))
    } else if h == 7 {
        (adv(with_gp(s, x, wrap8(s.gp[x] + kk))), Ok(()))
    } else if h == 8 {
        spec_exec_alu(s, op)
    } else if h == 9 {
        (skip_if(s, s.gp[x] != s.gp[y]), Ok(()))
    } else if h == 10 {
        (adv(SysState { i: nnn, ..s }), Ok(()))
    } else if h == 11 {
        (SysState { pc: wrap16(nnn + s.gp[0]), ..s }, Ok(()))
    } else if h == 12 {
        (adv(with_gp(s, x, rnd & kk)), Ok(()))
    } else if h == 13 {
        let rows = spec_rows(s.ram, s.i as int, n as int);
        let d = spec_draw(s.grid, s.gp[x] as int, s.gp[y] as int, rows);
        (
            adv(
                SysState {
                    grid: d.0,
                    modified: true,
                    gp: s.gp.update(
                        15,
                        if d.1 {
                            1u8
                        } else {
                            0u8
                        },
                    ),
                    ..s
                },
            ),
            Ok(()),
        )
    } else if h == 14 {
        if kk == 0x9E {
            (skip_if(s, s.keys[(s.gp[x] % 16) as int]), Ok(()))
        } else if kk == 0xA1 {
            (skip_if(s, !s.keys[(s.gp[x] % 16) as int]), Ok(()))
        } else {
            (s, Err(ExError::Decode(op)))
        }
    } else {
        spec_exec_fx(s, op)
    }
}

/// The address an instruction is fetched from: the program counter, rounded
/// down to an even address if odd, reduced into the address space.
pub open spec fn spec_fetch_addr(pc: u16) -> int {
    let e: int = if pc % 2 == 1 {
        pc - 1
    } else {
        pc as int
    };
    e % (MEM_SIZE as int)
}

/// The instruction fetched for the current program counter.
pub open spec fn spec_fetch(s: SysState) -> u16 {
    spec_opcode_at(s.ram, spec_fetch_addr(s.pc))
}

/// The effect of one full emulation step: the fetched opcode is executed,
/// both timers decrement once, and the modification flag is consumed, with
/// a frame snapshot handed out exactly when the display changed.
pub open spec fn spec_step(s: SysState, rnd: u8) -> (SysState, u16, ExResult<()>, Option<
    Seq<bool>,
>) {
    let op = spec_fetch(s);
    let e = spec_exec(s, op, rnd);
    let s2 = SysState { delay: dec_timer(e.0.delay), sound: dec_timer(e.0.sound), ..e.0 };
    if s2.modified {
        (SysState { modified: false, ..s2 }, op, e.1, Some(s2.grid))
    } else {
        (s2, op, e.1, None)
    }
}

/// A representation of the CHIP-8 architecture.
pub struct ChipSystem {
    /// Registers and related methods.
    pub registers: ChipRegisters,
    /// Display and related methods.
    pub display: ChipDisplay,
    /// RAM and related functions.
    pub ram: ChipMemory,
    /// Keyboard and related functions.
    pub keyboard: ChipKeyboard,
}

impl ChipSystem {
    /// The abstract state of the whole machine.
    pub open spec fn st(&self) -> SysState {
        SysState {
            ram: self.ram.mem(),
            loaded: self.ram.rom_loaded(),
            gp: self.registers.gp(),
            stack: self.registers.stack_slots(),
            sp: self.registers.sp(),
            i: self.registers.i(),
            pc: self.registers.pc(),
            delay: self.registers.delay(),
            sound: self.registers.sound(),
            grid: self.display.grid(),
            modified: self.display.is_modified(),
            keys: self.keyboard.keys(),
        }
    }

    /// Well-formedness of all four components.
    pub open spec fn wf(&self) -> bool {
        &&& self.ram.wf()
        &&& self.registers.wf()
        &&& self.display.wf()
        &&& self.keyboard.wf()
    }

    /// Initialize the CHIP-8 system.
    pub fn init() -> (s: Self)
        ensures
            s.wf(),
            s.st().loaded == false,
            s.st().gp =~= Seq::new(GP_COUNT as nat, |k: int| 0u8),
            s.st().stack =~= Seq::new(STACK_DEPTH as nat, |k: int| 0u16),
            s.st().sp == 0,
            s.st().i == 0,
            s.st().pc == PROG_START,
            s.st().delay == 0,
            s.st().sound == 0,
            s.st().grid =~= blank_grid(),
            s.st().modified == false,
            s.st().keys =~= Seq::new(KEY_COUNT as nat, |k: int| false),
            s.st().ram.len() == MEM_SIZE,
            forall|a: int|
                FONT_START <= a < FONT_START + 80 ==> s.st().ram[a] == font_seq()[a - FONT_START],
            forall|a: int|
                0 <= a < MEM_SIZE && !(FONT_START <= a < FONT_START + 80) ==> s.st().ram[a] == 0,
    {
        let ram = ChipMemory::init();
        let disp = ChipDisplay::init();
        let reg = ChipRegisters::init();
        let key = ChipKeyboard::init();
        ChipSystem { registers: reg, display: disp, ram, keyboard: key }
    }

    /// Return a random byte.
    ///
    /// Relies on `rand::thread_rng` and `rand::Rng::gen` for `u8`: a random
    /// byte from the thread-local generator.  Nothing is assumed of the
    /// returned value.
    #[verifier::external_body]
    fn random_byte() -> u8 {
        let mut rng = rand::thread_rng();
        let rand_byte: u8 = rng.gen();
        rand_byte
    }

    /// Execute one CHIP-8 opcode, drawing randomness from the thread-local
    /// generator.  The effect on the machine state is that of [`spec_exec`]
    /// for some random byte; every instruction other than the random-register
    /// one is unaffected by that byte.
    pub fn ex_opcode(&mut self, opcode: u16) -> (r: ExResult<()>)
        requires
            old(self).wf(),
        ensures
            final(self).wf(),
            exists|rnd: u8|
                {
                    let o = #[trigger] spec_exec(old(self).st(), opcode, rnd);
                    final(self).st() == o.0 && r == o.1
                },
    {
        let rnd = Self::random_byte();
        let r = self.ex_opcode_with(opcode, rnd);
        proof {
            let o = spec_exec(old(self).st(), opcode, rnd);
            assert(self.st() == o.0 && r == o.1);
        }
        r
    }

    /// Execute one CHIP-8 opcode with `rnd` as the random byte consumed by
    /// the random-register instruction.  Implements [`spec_exec`] exactly:
    /// on success all effects of the opcode apply, on an error none do.
    pub fn ex_opcode_with(&mut self, opcode: u16, rnd: u8) -> (r: ExResult<()>)
        requires
            old(self).wf(),
        ensures
            final(self).wf(),
            ({
                let o = spec_exec(old(self).st(), opcode, rnd);
                final(self).st() == o.0 && r == o.1
            }),
    {
        let comps = Opcode::new(opcode);
        let kk: u8 = (opcode & 0xff) as u8;
        let nnn: u16 = opcode & 0xfff;
        proof {
            assert((opcode & 0xff) as u8 == (opcode % 256) as u8) by (bit_vector);
            assert(opcode & 0xfff == (opcode % 0x1000) as u16) by (bit_vector);
        }
        match comps.h1 {
            0x0 => {
                match comps.v3 {
                    // CLS - clear display
                    0 => {
                        self.display.clear_display();
                        self.registers.incr_pc();
                        Ok(())
                    },
                    // RET - return from subroutine
                    14 => {
                        match self.registers.pop_stack() {
                            Ok(pc) => {
                                self.registers.set_pc(pc);
                                self.registers.incr_pc();
                                Ok(())
                            },
                            Err(e) => Err(e),
                        }
                    },
                    // 0nnn - unused instruction from actual hardware, ignored
                    _ => {
                        self.registers.incr_pc();
                        Ok(())
                    },
                }
            },
            // JP - jump to address without modifying the stack
            0x1 => {
                self.registers.set_pc(nnn);
                Ok(())
            },
            // CALL - jump to address with push to stack
            0x2 => {
                let cur_pc = self.registers.get_pc();
                match self.registers.push_stack(cur_pc) {
                    Ok(()) => {
                        self.registers.set_pc(nnn);
                        Ok(())
                    },
                    Err(e) => Err(e),
                }
            },
            // SE Vx, byte - skip next instruction if Vx == byte
            0x3 => {
                let reg_val = self.registers.get_gp(comps.v1 as usize);
                if reg_val == kk {
                    self.registers.incr_pc();
                }
                self.registers.incr_pc();
                Ok(())
            },
            // SNE Vx, byte - skip next instruction if Vx != byte
            0x4 => {
                let reg_val = self.registers.get_gp(comps.v1 as usize);
                if reg_val != kk {
                    self.registers.incr_pc();
                }
                self.registers.incr_pc();
                Ok(())
            },
            // SE Vx, Vy - skip next instruction if Vx == Vy
            0x5 => {
                let reg_x_val = self.registers.get_gp(comps.v1 as usize);
                let reg_y_val = self.registers.get_gp(comps.v2 as usize);
                if reg_x_val == reg_y_val {
                    self.registers.incr_pc();
                }
                self.registers.incr_pc();
                Ok(())
            },
            // LD Vx, byte - load byte value into Vx
            0x6 => {
                self.registers.set_gp(comps.v1 as usize, kk);
                self.registers.incr_pc();
                Ok(())
            },
            // ADD Vx, byte - add byte value to Vx, no carry flag
            0x7 => {
                self.registers.add_gp(comps.v1 as usize, kk);
                self.registers.incr_pc();
                Ok(())
            },
            // arithmetic/logic/shift group
            0x8 => self.ex_alu(opcode, comps.v1 as usize, comps.v2 as usize, comps.v3),
            // SNE Vx, Vy - skip next instruction if Vx != Vy
            0x9 => {
                let reg_x_val = self.registers.get_gp(comps.v1 as usize);
                let reg_y_val = self.registers.get_gp(comps.v2 as usize);
                if reg_x_val != reg_y_val {
                    self.registers.incr_pc();
                }
                self.registers.incr_pc();
                Ok(())
            },
            // LD I, addr - register I is set to the address
            0xA => {
                self.registers.set_i(nnn);
                self.registers.incr_pc();
                Ok(())
            },
            // JP V0, addr - jump to the location addr + V0
            0xB => {
                let reg_v0_val = self.registers.get_gp(0);
                self.registers.set_pc(nnn.wrapping_add(reg_v0_val as u16));
                Ok(())
            },
            // RND Vx, byte - set Vx to byte & random byte
            0xC => {
                self.registers.set_gp(comps.v1 as usize, rnd & kk);
                self.registers.incr_pc();
                Ok(())
            },
            // DRW Vx, Vy, n - draw a sprite at (Vx, Vy) with height n
            0xD => {
                let x_loc = self.registers.get_gp(comps.v1 as usize) as u16;
                let y_loc = self.registers.get_gp(comps.v2 as usize) as u16;
                let nbytes = comps.v3;
                let sprite_mem_loc = self.registers.get_i();
                let sprite_bytes = self.ram.get_nbytes(sprite_mem_loc, nbytes);
                proof {
                    assert(sprite_bytes@ =~= spec_rows(
                        old(self).st().ram,
                        old(self).st().i as int,
                        op_n(opcode) as int,
                    ));
                }
                let overlap = self.display.draw_sprite(x_loc, y_loc, sprite_bytes);
                if overlap {
                    self.registers.set_gp(15, 1);
                } else {
                    self.registers.set_gp(15, 0);
                }
                self.registers.incr_pc();
                Ok(())
            },
            // key skip group
            0xE => {
                let reg_x_val = self.registers.get_gp(comps.v1 as usize);
                let key_val = self.keyboard.get_key(reg_x_val % 16);
                if kk == 0x9E {
                    // SKP Vx - skip next instruction if key Vx is pressed
                    if key_val {
                        self.registers.incr_pc();
                    }
                    self.registers.incr_pc();
                    Ok(())
                } else if kk == 0xA1 {
                    // SKNP Vx - skip next instruction if key Vx is not pressed
                    if !key_val {
                        self.registers.incr_pc();
                    }
                    self.registers.incr_pc();
                    Ok(())
                } else {
                    Err(ExError::Decode(opcode))
                }
            },
            // timer, key wait, index and memory group
            0xF => self.ex_fx(opcode, comps.v1 as usize, kk),
            _ => Err(ExError::Decode(opcode)),
        }
    }

    /// The arithmetic/logic/shift group: implements [`spec_exec_alu`].
    fn ex_alu(&mut self, opcode: u16, x: usize, y: usize, n: u16) -> (r: ExResult<()>)
        requires
            old(self).wf(),
            op_h(opcode) == 8,
            x == op_x(opcode),
            y == op_y(opcode),
            n == op_n(opcode),
        ensures
            final(self).wf(),
            ({
                let o = spec_exec_alu(old(self).st(), opcode);
                final(self).st() == o.0 && r == o.1
            }),
    {
        let vx = self.registers.get_gp(x);
        let vy = self.registers.get_gp(y);
        match n {
            // LD Vx, Vy - store value of Vy in Vx
            0x0 => {
                self.registers.set_gp(x, vy);
            },
            // OR Vx, Vy - bitwise OR on Vx, Vy, store in Vx
            0x1 => {
                self.registers.set_gp(x, vx | vy);
            },
            // AND Vx, Vy - bitwise AND on Vx, Vy, store in Vx
            0x2 => {
                self.registers.set_gp(x, vx & vy);
            },
            // XOR Vx, Vy - bitwise XOR on Vx, Vy, store in Vx
            0x3 => {
                self.registers.set_gp(x, vx ^ vy);
            },
            // ADD Vx, Vy - add with carry flag: VF = 1 if the 9-bit sum
            // exceeds 255, else 0; Vx = sum mod 256
            0x4 => {
                let holder: u16 = vx as u16 + vy as u16;
                if holder > 255 {
                    self.registers.set_gp(15, 1);
                } else {
                    self.registers.set_gp(15, 0);
                }
                self.registers.set_gp(x, (holder % 256) as u8);
            },
            // SUB Vx, Vy - VF = 0 on borrow (Vx < Vy), else 1;
            // Vx = (Vx - Vy) mod 256
            0x5 => {
                if vx < vy {
                    self.registers.set_gp(15, 0);
                } else {
                    self.registers.set_gp(15, 1);
                }
                self.registers.set_gp(x, vx.wrapping_sub(vy));
            },
            // SHR Vx - VF = least-significant bit of Vx, then Vx >>= 1
            0x6 => {
                self.registers.set_gp(15, vx & 0x01);
                self.registers.set_gp(x, vx >> 1);
                proof {
                    assert(vx & 0x01 == vx % 2) by (bit_vector);
                    assert(vx >> 1 == vx / 2) by (bit_vector);
                }
            },
            // SUBN Vx, Vy - VF = 0 on borrow (Vy < Vx), else 1;
            // Vx = (Vy - Vx) mod 256
            0x7 => {
                if vy < vx {
                    self.registers.set_gp(15, 0);
                } else {
                    self.registers.set_gp(15, 1);
                }
                self.registers.set_gp(x, vy.wrapping_sub(vx));
            },
            // SHL Vx - VF = most-significant bit of Vx, then Vx <<= 1
            0xE => {
                self.registers.set_gp(15, vx >> 7);
                self.registers.set_gp(x, vx << 1);
                proof {
                    assert(vx >> 7 == vx / 128) by (bit_vector);
                    assert(vx << 1 == ((vx * 2) % 256) as u8) by (bit_vector);
                }
            },
            _ => {
                return Err(ExError::Decode(opcode));
            },
        }
        self.registers.incr_pc();
        Ok(())
    }

    /// The miscellaneous group: implements [`spec_exec_fx`].
    fn ex_fx(&mut self, opcode: u16, x: usize, kk: u8) -> (r: ExResult<()>)
        requires
            old(self).wf(),
            op_h(opcode) == 15,
            x == op_x(opcode),
            kk == op_kk(opcode),
        ensures
            final(self).wf(),
            ({
                let o = spec_exec_fx(old(self).st(), opcode);
                final(self).st() == o.0 && r == o.1
            }),
    {
        if kk == 0x07 {
            // LD Vx, DT - set Vx to the value of the delay timer
            let delay_val = self.registers.get_d();
            self.registers.set_gp(x, delay_val);
            self.registers.incr_pc();
            Ok(())
        } else if kk == 0x0A {
            // LD Vx, K - wait for a keypress, put the lowest pressed key in
            // Vx; while no key is pressed the instruction has no effect and
            // the program counter stays put, so it is retried next step
            if self.keyboard.any_pressed() {
                let key = self.keyboard.which_pressed();
                proof {
                    crate::keyboard::lemma_first_pressed(self.keyboard.keys(), 0);
                }
                self.registers.set_gp(x, key);
                self.registers.incr_pc();
            }
            Ok(())
        } else if kk == 0x15 {
            // LD DT, Vx - set the delay timer to the value in Vx
            let reg_val = self.registers.get_gp(x);
            self.registers.set_d(reg_val);
            self.registers.incr_pc();
            Ok(())
        } else if kk == 0x18 {
            // LD ST, Vx - set the sound timer to the value in Vx
            let reg_val = self.registers.get_gp(x);
            self.registers.set_s(reg_val);
            self.registers.incr_pc();
            Ok(())
        } else if kk == 0x1E {
            // ADD I, Vx - set register I to I + Vx, wrapping
            let i_val = self.registers.get_i();
            let reg_x_val = self.registers.get_gp(x);
            self.registers.set_i(i_val.wrapping_add(reg_x_val as u16));
            self.registers.incr_pc();
            Ok(())
        } else if kk == 0x29 {
            // LD F, Vx - set I to the font glyph address of the digit in Vx
            let reg_x_val = self.registers.get_gp(x);
            let digit = (reg_x_val % 16) as u16;
            self.registers.set_i(0x50 + 5 * digit);
            self.registers.incr_pc();
            Ok(())
        } else if kk == 0x33 {
            // LD B, Vx - place the BCD of Vx at I (hundreds), I+1 (tens),
            // I+2 (ones), addresses reduced into the address space
            let reg_val = self.registers.get_gp(x);
            let i_val = self.registers.get_i();
            let ones = reg_val % 10;
            let tens = (reg_val / 10) % 10;
            let huns = (reg_val / 100) % 10;
            self.ram.set_byte(i_val % 4096, huns);
            self.ram.set_byte(((i_val as usize + 1) % 4096) as u16, tens);
            self.ram.set_byte(((i_val as usize + 2) % 4096) as u16, ones);
            self.registers.incr_pc();
            Ok(())
        } else if kk == 0x55 {
            // LD [I], Vx - store V0 through Vx in memory starting at I,
            // then I = I + x + 1
            let i_val = self.registers.get_i();
            let mut loc: usize = 0;
            while loc <= x
                invariant
                    self.ram.wf(),
                    self.registers == old(self).registers,
                    self.display == old(self).display,
                    self.keyboard == old(self).keyboard,
                    self.ram.rom_loaded() == old(self).ram.rom_loaded(),
                    old(self).wf(),
                    x < GP_COUNT,
                    i_val == old(self).st().i,
                    loc <= x + 1,
                    self.ram.mem() == spec_store_regs(
                        old(self).st().ram,
                        old(self).st().gp,
                        i_val as int,
                        loc as int,
                    ),
                decreases x + 1 - loc,
            {
                let cur_reg = self.registers.get_gp(loc);
                self.ram.set_byte(((i_val as usize + loc) % 4096) as u16, cur_reg);
                loc = loc + 1;
            }
            let new_i = i_val.wrapping_add(x as u16 + 1);
            self.registers.set_i(new_i);
            self.registers.incr_pc();
            Ok(())
        } else if kk == 0x65 {
            // LD Vx, [I] - fill V0 through Vx from memory starting at I
            let i_val = self.registers.get_i();
            let mut loc: usize = 0;
            while loc <= x
                invariant
                    self.ram == old(self).ram,
                    self.display == old(self).display,
                    self.keyboard == old(self).keyboard,
                    self.registers.wf(),
                    self.registers.stack_slots() == old(self).registers.stack_slots(),
                    self.registers.sp() == old(self).registers.sp(),
                    self.registers.i() == old(self).registers.i(),
                    self.registers.pc() == old(self).registers.pc(),
                    self.registers.delay() == old(self).registers.delay(),
                    self.registers.sound() == old(self).registers.sound(),
                    old(self).wf(),
                    x < GP_COUNT,
                    i_val == old(self).st().i,
                    loc <= x + 1,
                    forall|k: int|
                        0 <= k < loc ==> self.registers.gp()[k] == old(self).st().ram[mask12(
                            i_val + k,
                        )],
                    forall|k: int|
                        loc <= k < GP_COUNT ==> self.registers.gp()[k] == old(self).st().gp[k],
                decreases x + 1 - loc,
            {
                let cur_reg = self.ram.get_byte(((i_val as usize + loc) % 4096) as u16);
                self.registers.set_gp(loc, cur_reg);
                loc = loc + 1;
            }
            proof {
                assert(self.registers.gp() =~= spec_load_regs(
                    old(self).st().gp,
                    old(self).st().ram,
                    i_val as int,
                    x as int,
                ));
            }
            self.registers.incr_pc();
            Ok(())
        } else {
            Err(ExError::Decode(opcode))
        }
    }

    /// Fetch the opcode at the current program counter, rounded down to an
    /// even address if odd and reduced into the address space.
    fn get_next_opcode(&self) -> (op: u16)
        requires
            self.wf(),
        ensures
            op == spec_fetch(self.st()),
    {
        let mut index = self.registers.get_pc();
        if index % 2 != 0 {
            index = index - 1;
        }
        let fetch_at = index % 4096;
        proof {
            assert(index % 2 == 0 ==> index % 4096 <= 4094) by (bit_vector);
        }
        self.ram.get_opcode(fetch_at)
    }

    /// Run one emulation step: fetch the opcode at the program counter,
    /// execute it, decrement both timers once, and consume the display
    /// modification flag.  Returns the fetched opcode, the execution result,
    /// and a frame snapshot exactly when the display changed.
    pub fn step(&mut self) -> (r: (u16, ExResult<()>, Option<Vec<bool>>))
        requires
            old(self).wf(),
        ensures
            final(self).wf(),
            exists|rnd: u8|
                {
                    let o = #[trigger] spec_step(old(self).st(), rnd);
                    &&& final(self).st() == o.0
                    &&& r.0 == o.1
                    &&& r.1 == o.2
                    &&& (match r.2 {
                        Some(v) => o.3 == Some(v@),
                        None => o.3 is None,
                    })
                },
    {
        let opcode = self.get_next_opcode();
        let rnd = Self::random_byte();
        let res = self.ex_opcode_with(opcode, rnd);
        self.registers.decr_d();
        self.registers.decr_s();
        let r = if self.display.mod_check() {
            (opcode, res, Some(self.display.get_display()))
        } else {
            (opcode, res, None)
        };
        proof {
            let o = spec_step(old(self).st(), rnd);
            assert(self.st() == o.0);
        }
        r
    }

    /// Record that key `index` was pressed.
    pub fn key_down(&mut self, index: u8)
        requires
            old(self).wf(),
            index < KEY_COUNT,
        ensures
            final(self).wf(),
            final(self).st() == (SysState {
                keys: old(self).st().keys.update(index as int, true),
                ..old(self).st()
            }),
    {
        self.keyboard.set_key(index, true);
    }

    /// Record that key `index` was released.
    pub fn key_up(&mut self, index: u8)
        requires
            old(self).wf(),
            index < KEY_COUNT,
        ensures
            final(self).wf(),
            final(self).st() == (SysState {
                keys: old(self).st().keys.update(index as int, false),
                ..old(self).st()
            }),
    {
        self.keyboard.set_key(index, false);
    }

    /// Get an immutable copy of the current 64x32 pixel grid, for rendering.
    pub fn snapshot(&self) -> (v: Vec<bool>)
        ensures
            v@ == self.st().grid,
    {
        self.display.get_display()
    }

    /// Load a program image into the CHIP-8 memory at the program start
    /// address.  An image larger than the 3584-byte program region is a
    /// load-time contract violation.
    pub fn load_rom(&mut self, rom: Vec<u8>)
        requires
            old(self).wf(),
            rom@.len() <= MAX_ROM_LEN,
        ensures
            final(self).wf(),
            final(self).st().loaded,
            forall|a: int|
                PROG_START <= a < PROG_START + rom@.len() ==> final(self).st().ram[a] == rom@[a
                    - PROG_START],
            forall|a: int|
                0 <= a < MEM_SIZE && !(PROG_START <= a < PROG_START + rom@.len())
                    ==> final(self).st().ram[a] == old(self).st().ram[a],
            final(self).st() == (SysState {
                ram: final(self).st().ram,
                loaded: true,
                ..old(self).st()
            }),
    {
        self.ram.load_bytes(rom);
    }
}

} // verus!
