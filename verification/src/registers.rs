//! The CHIP-8 register file: sixteen general-purpose 8-bit registers, the
//! 16-bit index register, the program counter, the two timers, and a bounded
//! call stack of sixteen return addresses.

use crate::system::ExError;
use vstd::prelude::*;

verus! {

/// Number of general-purpose registers.
pub const GP_COUNT: usize = 16;

/// Maximum call depth.
pub const STACK_DEPTH: usize = 16;

/// Initial value of the program counter: the start of the program image.
pub const PC_START: u16 = 512;

/// A struct representing the CHIP-8 registers.
pub struct ChipRegisters {
    /// General purpose registers.
    gp_reg: Vec<u8>,
    /// Address call stack, sixteen fixed slots.
    stack: Vec<u16>,
    /// Register I, address storage.
    i_reg: u16,
    /// Delay timer register.
    d_reg: u8,
    /// Sound timer register.
    s_reg: u8,
    /// Program counter, current address.
    pc_reg: u16,
    /// Stack pointer: number of live stack entries.
    sp_reg: usize,
}

impl ChipRegisters {
    /// The sixteen general-purpose registers.
    pub closed spec fn gp(&self) -> Seq<u8> {
        self.gp_reg@
    }

    /// All sixteen stack slots, live or not.
    pub closed spec fn stack_slots(&self) -> Seq<u16> {
        self.stack@
    }

    /// The stack pointer: how many stack slots are live.
    pub closed spec fn sp(&self) -> int {
        self.sp_reg as int
    }

    /// The index register I.
    pub closed spec fn i(&self) -> u16 {
        self.i_reg
    }

    /// The program counter.
    pub closed spec fn pc(&self) -> u16 {
        self.pc_reg
    }

    /// The delay timer.
    pub closed spec fn delay(&self) -> u8 {
        self.d_reg
    }

    /// The sound timer.
    pub closed spec fn sound(&self) -> u8 {
        self.s_reg
    }

    /// Well-formedness: sixteen registers, sixteen stack slots, and a stack
    /// pointer within [0, 16].
    pub open spec fn wf(&self) -> bool {
        &&& self.gp().len() == GP_COUNT
        &&& self.stack_slots().len() == STACK_DEPTH
        &&& 0 <= self.sp() <= STACK_DEPTH
    }

    /// Initialize the register file: every register and stack slot zero,
    /// except the program counter, which starts at the program image.
    pub fn init() -> (r: Self)
        ensures
            r.wf(),
            r.gp() =~= Seq::new(GP_COUNT as nat, |k: int| 0u8),
            r.stack_slots() =~= Seq::new(STACK_DEPTH as nat, |k: int| 0u16),
            r.sp() == 0,
            r.i() == 0,
            r.pc() == PC_START,
            r.delay() == 0,
            r.sound() == 0,
    {
        let gp_reg = vec![0u8; 16];
        let stack = vec![0u16; 16];
        ChipRegisters { gp_reg, stack, i_reg: 0, d_reg: 0, s_reg: 0, pc_reg: PC_START, sp_reg: 0 }
    }

    /// Set general-purpose register `index` to `value`.
    pub fn set_gp(&mut self, index: usize, value: u8)
        requires
            old(self).wf(),
            index < GP_COUNT,
        ensures
            final(self).wf(),
            final(self).gp() == old(self).gp().update(index as int, value),
            final(self).stack_slots() == old(self).stack_slots(),
            final(self).sp() == old(self).sp(),
            final(self).i() == old(self).i(),
            final(self).pc() == old(self).pc(),
            final(self).delay() == old(self).delay(),
            final(self).sound() == old(self).sound(),
    {
        self.gp_reg[index] = value;
    }

    /// Get the value of general-purpose register `index`.
    pub fn get_gp(&self, index: usize) -> (v: u8)
        requires
            self.wf(),
            index < GP_COUNT,
        ensures
            v == self.gp()[index as int],
    {
        self.gp_reg[index]
    }

    /// Add `value` to general-purpose register `index`, wrapping modulo 256;
    /// no carry or overflow detection happens at this layer.
    pub fn add_gp(&mut self, index: usize, value: u8)
        requires
            old(self).wf(),
            index < GP_COUNT,
        ensures
            final(self).wf(),
            final(self).gp() == old(self).gp().update(
                index as int,
                ((old(self).gp()[index as int] + value) % 256) as u8,
            ),
            final(self).stack_slots() == old(self).stack_slots(),
            final(self).sp() == old(self).sp(),
            final(self).i() == old(self).i(),
            final(self).pc() == old(self).pc(),
            final(self).delay() == old(self).delay(),
            final(self).sound() == old(self).sound(),
    {
        let v = self.gp_reg[index].wrapping_add(value);
        self.gp_reg[index] = v;
    }

    /// Set the index register I.
    pub fn set_i(&mut self, value: u16)
        requires
            old(self).wf(),
        ensures
            final(self).wf(),
            final(self).i() == value,
            final(self).gp() == old(self).gp(),
            final(self).stack_slots() == old(self).stack_slots(),
            final(self).sp() == old(self).sp(),
            final(self).pc() == old(self).pc(),
            final(self).delay() == old(self).delay(),
            final(self).sound() == old(self).sound(),
    {
        self.i_reg = value;
    }

    /// Get the value of the index register I.
    pub fn get_i(&self) -> (v: u16)
        ensures
            v == self.i(),
    {
        self.i_reg
    }

    /// Set the program counter.
    pub fn set_pc(&mut self, value: u16)
        requires
            old(self).wf(),
        ensures
            final(self).wf(),
            final(self).pc() == value,
            final(self).gp() == old(self).gp(),
            final(self).stack_slots() == old(self).stack_slots(),
            final(self).sp() == old(self).sp(),
            final(self).i() == old(self).i(),
            final(self).delay() == old(self).delay(),
            final(self).sound() == old(self).sound(),
    {
        self.pc_reg = value;
    }

    /// Increment the program counter by exactly 2 (one instruction),
    /// wrapping modulo 2^16.
    pub fn incr_pc(&mut self)
        requires
            old(self).wf(),
        ensures
            final(self).wf(),
            final(self).pc() == ((old(self).pc() + 2) % 0x10000) as u16,
            final(self).gp() == old(self).gp(),
            final(self).stack_slots() == old(self).stack_slots(),
            final(self).sp() == old(self).sp(),
            final(self).i() == old(self).i(),
            final(self).delay() == old(self).delay(),
            final(self).sound() == old(self).sound(),
    {
        self.pc_reg = self.pc_reg.wrapping_add(2);
    }

    /// Get the value of the program counter.
    pub fn get_pc(&self) -> (v: u16)
        ensures
            v == self.pc(),
    {
        self.pc_reg
    }

    /// Get the value of the delay timer.
    pub fn get_d(&self) -> (v: u8)
        ensures
            v == self.delay(),
    {
        self.d_reg
    }

    /// Set the delay timer.
    pub fn set_d(&mut self, value: u8)
        requires
            old(self).wf(),
        ensures
            final(self).wf(),
            final(self).delay() == value,
            final(self).gp() == old(self).gp(),
            final(self).stack_slots() == old(self).stack_slots(),
            final(self).sp() == old(self).sp(),
            final(self).i() == old(self).i(),
            final(self).pc() == old(self).pc(),
            final(self).sound() == old(self).sound(),
    {
        self.d_reg = value;
    }

    /// Get the value of the sound timer.
    pub fn get_s(&self) -> (v: u8)
        ensures
            v == self.sound(),
    {
        self.s_reg
    }

    /// Set the sound timer.
    pub fn set_s(&mut self, value: u8)
        requires
            old(self).wf(),
        ensures
            final(self).wf(),
            final(self).sound() == value,
            final(self).gp() == old(self).gp(),
            final(self).stack_slots() == old(self).stack_slots(),
            final(self).sp() == old(self).sp(),
            final(self).i() == old(self).i(),
            final(self).pc() == old(self).pc(),
            final(self).delay() == old(self).delay(),
    {
        self.s_reg = value;
    }

    /// Decrement the delay timer if it is not already zero: the timer
    /// saturates at zero and never wraps negative.
    pub fn decr_d(&mut self)
        requires
            old(self).wf(),
        ensures
            final(self).wf(),
            final(self).delay() == if old(self).delay() > 0 {
                (old(self).delay() - 1) as u8
            } else {
                0u8
            },
            final(self).gp() == old(self).gp(),
            final(self).stack_slots() == old(self).stack_slots(),
            final(self).sp() == old(self).sp(),
            final(self).i() == old(self).i(),
            final(self).pc() == old(self).pc(),
            final(self).sound() == old(self).sound(),
    {
        if self.d_reg > 0 {
            self.d_reg = self.d_reg - 1;
        }
    }

    /// Decrement the sound timer if it is not already zero: the timer
    /// saturates at zero and never wraps negative.
    pub fn decr_s(&mut self)
        requires
            old(self).wf(),
        ensures
            final(self).wf(),
            final(self).sound() == if old(self).sound() > 0 {
                (old(self).sound() - 1) as u8
            } else {
                0u8
            },
            final(self).gp() == old(self).gp(),
            final(self).stack_slots() == old(self).stack_slots(),
            final(self).sp() == old(self).sp(),
            final(self).i() == old(self).i(),
            final(self).pc() == old(self).pc(),
            final(self).delay() == old(self).delay(),
    {
        if self.s_reg > 0 {
            self.s_reg = self.s_reg - 1;
        }
    }

    /// Push a return address onto the call stack.  Fails with a
    /// stack-overflow error, leaving the register file unchanged, when the
    /// stack already holds 16 entries.
    pub fn push_stack(&mut self, addr: u16) -> (r: Result<(), ExError>)
        requires
            old(self).wf(),
        ensures
            final(self).wf(),
            old(self).sp() == STACK_DEPTH ==> r == Result::<(), ExError>::Err(
                ExError::StackOverflow,
            ) && *final(self) == *old(self),
            old(self).sp() < STACK_DEPTH ==> {
                &&& r == Result::<(), ExError>::Ok(())
                &&& final(self).stack_slots() == old(self).stack_slots().update(
                    old(self).sp(),
                    addr,
                )
                &&& final(self).sp() == old(self).sp() + 1
                &&& final(self).gp() == old(self).gp()
                &&& final(self).i() == old(self).i()
                &&& final(self).pc() == old(self).pc()
                &&& final(self).delay() == old(self).delay()
                &&& final(self).sound() == old(self).sound()
            },
    {
        if self.sp_reg >= STACK_DEPTH {
            return Err(ExError::StackOverflow);
        }
        self.stack[self.sp_reg] = addr;
        self.sp_reg = self.sp_reg + 1;
        Ok(())
    }

    /// Pop the most recently pushed return address from the call stack.
    /// Fails with a stack-underflow error, leaving the register file
    /// unchanged, when the stack is empty.
    pub fn pop_stack(&mut self) -> (r: Result<u16, ExError>)
        requires
            old(self).wf(),
        ensures
            final(self).wf(),
            old(self).sp() == 0 ==> r == Result::<u16, ExError>::Err(ExError::StackUnderflow)
                && *final(self) == *old(self),
            old(self).sp() > 0 ==> {
                &&& r == Result::<u16, ExError>::Ok(old(self).stack_slots()[old(self).sp() - 1])
                &&& final(self).sp() == old(self).sp() - 1
                &&& final(self).stack_slots() == old(self).stack_slots()
                &&& final(self).gp() == old(self).gp()
                &&& final(self).i() == old(self).i()
                &&& final(self).pc() == old(self).pc()
                &&& final(self).delay() == old(self).delay()
                &&& final(self).sound() == old(self).sound()
            },
    {
        if self.sp_reg == 0 {
            return Err(ExError::StackUnderflow);
        }
        self.sp_reg = self.sp_reg - 1;
        let addr = self.stack[self.sp_reg];
        Ok(addr)
    }
}

} // verus!
