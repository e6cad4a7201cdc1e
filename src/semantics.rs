use vstd::prelude::*;
use crate::machine::{State, SCREEN_START};
use crate::opcode::{addr_of, byte_of, reg_x, reg_y};

verus! {

/// What each instruction does to the state, apart from the advance of the
/// program counter that follows most of them.
impl State {
    pub open spec fn set_i(self, i: u16) -> State {
        State { i: i, ..self }
    }

    /// Register VX of the instruction.
    pub open spec fn vx(self, inst: Seq<u8>) -> u8 {
        self.v[reg_x(inst)]
    }

    /// Register VY of the instruction.
    pub open spec fn vy(self, inst: Seq<u8>) -> u8 {
        self.v[reg_y(inst)]
    }

    /// The program counter moved past one instruction, modulo 2^16.
    pub open spec fn skipped(self) -> State {
        self.set_pc(((self.pc + 2) % 0x10000) as u16)
    }

    /// `00E0`: every byte of the display region becomes 0.
    pub open spec fn cls(self) -> State {
        State {
            ram: Seq::new(self.ram.len(), |j: int| if j >= SCREEN_START { 0u8 } else { self.ram[j] }),
            ..self
        }
    }

    /// `00EE`: the return address on top of the stack goes back into the
    /// program counter, and the stack pointer goes down by one.
    pub open spec fn ret(self) -> State {
        State { pc: self.stack[self.sp - 1], sp: (self.sp - 1) as u8, ..self }
    }

    /// `1NNN`
    pub open spec fn jmp_addr(self, inst: Seq<u8>) -> State {
        self.set_pc(addr_of(inst))
    }

    /// `2NNN`: the program counter is stored at the stack pointer, the stack
    /// pointer goes up by one, and NNN is taken.
    pub open spec fn call_addr(self, inst: Seq<u8>) -> State {
        State {
            stack: self.stack.update(self.sp as int, self.pc),
            sp: (self.sp + 1) as u8,
            pc: addr_of(inst),
            ..self
        }
    }

    /// `3XKK`
    pub open spec fn se_vx_byte(self, inst: Seq<u8>) -> State {
        if self.vx(inst) == byte_of(inst) { self.skipped() } else { self }
    }

    /// `4XKK`
    pub open spec fn sne_vx_byte(self, inst: Seq<u8>) -> State {
        if self.vx(inst) != byte_of(inst) { self.skipped() } else { self }
    }

    /// `5XY0`
    pub open spec fn se_vx_vy(self, inst: Seq<u8>) -> State {
        if self.vx(inst) == self.vy(inst) { self.skipped() } else { self }
    }

    /// `9XY0`
    pub open spec fn sne_vx_vy(self, inst: Seq<u8>) -> State {
        if self.vx(inst) != self.vy(inst) { self.skipped() } else { self }
    }

    /// `6XKK`
    pub open spec fn ld_vx_byte(self, inst: Seq<u8>) -> State {
        self.set_v(reg_x(inst), byte_of(inst))
    }

    /// `7XKK`: addition modulo 256; VF is left alone.
    pub open spec fn add_vx_byte(self, inst: Seq<u8>) -> State {
        self.set_v(reg_x(inst), ((self.vx(inst) + byte_of(inst)) % 256) as u8)
    }

    /// `8XY0`
    pub open spec fn ld_vx_vy(self, inst: Seq<u8>) -> State {
        self.set_v(reg_x(inst), self.vy(inst))
    }

    /// `8XY1`
    pub open spec fn or_vx_vy(self, inst: Seq<u8>) -> State {
        self.set_v(reg_x(inst), self.vx(inst) | self.vy(inst))
    }

    /// `8XY2`
    pub open spec fn and_vx_vy(self, inst: Seq<u8>) -> State {
        self.set_v(reg_x(inst), self.vx(inst) & self.vy(inst))
    }

    /// `8XY3`
    pub open spec fn xor_vx_vy(self, inst: Seq<u8>) -> State {
        self.set_v(reg_x(inst), self.vx(inst) ^ self.vy(inst))
    }

    // In the flag-setting operations below VF is written first, and the
    // result is then computed from the registers as they stand.

    /// `8XY4`: VF becomes the carry out of VX + VY.
    pub open spec fn add_vx_vy(self, inst: Seq<u8>) -> State {
        let s = self.set_v(15, if self.vx(inst) + self.vy(inst) > 255 { 1u8 } else { 0u8 });
        s.set_v(reg_x(inst), ((s.vx(inst) + s.vy(inst)) % 256) as u8)
    }

    /// `8XY5`: VF becomes 1 when VX > VY ("not borrow").
    pub open spec fn sub_vx_vy(self, inst: Seq<u8>) -> State {
        let s = self.set_v(15, if self.vx(inst) > self.vy(inst) { 1u8 } else { 0u8 });
        s.set_v(reg_x(inst), ((s.vx(inst) - s.vy(inst) + 256) % 256) as u8)
    }

    /// `8XY6`: VF becomes the low bit of VX.
    pub open spec fn shr_vx(self, inst: Seq<u8>) -> State {
        let s = self.set_v(15, self.vx(inst) % 2);
        s.set_v(reg_x(inst), s.vx(inst) / 2)
    }

    /// `8XY7`: VF becomes 1 when VY > VX.
    pub open spec fn subn_vx_vy(self, inst: Seq<u8>) -> State {
        let s = self.set_v(15, if self.vy(inst) > self.vx(inst) { 1u8 } else { 0u8 });
        s.set_v(reg_x(inst), ((s.vy(inst) - s.vx(inst) + 256) % 256) as u8)
    }

    /// `8XYE`: VF becomes the high bit of VX as it stands in the byte (0x80
    /// or 0), not reduced to 0 or 1.
    pub open spec fn shl_vx(self, inst: Seq<u8>) -> State {
        let s = self.set_v(15, if self.vx(inst) >= 0x80 { 0x80u8 } else { 0u8 });
        s.set_v(reg_x(inst), ((s.vx(inst) * 2) % 256) as u8)
    }

    /// `ANNN`
    pub open spec fn ld_i_addr(self, inst: Seq<u8>) -> State {
        self.set_i(addr_of(inst))
    }

    /// `BNNN`
    pub open spec fn jp_v0_addr(self, inst: Seq<u8>) -> State {
        self.set_pc((addr_of(inst) + self.v[0]) as u16)
    }

    /// `CXKK`, given the random byte drawn for it.
    pub open spec fn rnd_vx_byte(self, inst: Seq<u8>, random: u8) -> State {
        self.set_v(reg_x(inst), byte_of(inst) & random)
    }

    /// `EX9E`
    pub open spec fn skp_vx(self, inst: Seq<u8>) -> State {
        if self.keyboard[self.vx(inst) as int] { self.skipped() } else { self }
    }

    /// `EXA1`
    pub open spec fn sknp_vx(self, inst: Seq<u8>) -> State {
        if !self.keyboard[self.vx(inst) as int] { self.skipped() } else { self }
    }

    /// `FX07`
    pub open spec fn ld_vx_dt(self, inst: Seq<u8>) -> State {
        self.set_v(reg_x(inst), self.dt)
    }

    /// `FX0A`, once the key has come.
    pub open spec fn ld_vx_k(self, x: int, key: u8) -> State {
        self.set_v(x, key)
    }

    /// `FX15`
    pub open spec fn ld_dt_vx(self, inst: Seq<u8>) -> State {
        State { dt: self.vx(inst), ..self }
    }

    /// `FX18`
    pub open spec fn ld_st_vx(self, inst: Seq<u8>) -> State {
        State { st: self.vx(inst), ..self }
    }

    /// `FX1E`: addition modulo 2^16.
    pub open spec fn add_i_vx(self, inst: Seq<u8>) -> State {
        self.set_i(((self.i + self.vx(inst)) % 0x10000) as u16)
    }

    /// `FX29`: I becomes the address of the glyph of digit VX, VX * 5,
    /// computed in 16 bits.
    pub open spec fn lf_f_vx(self, inst: Seq<u8>) -> State {
        self.set_i((self.vx(inst) * 5) as u16)
    }

    /// `FX33`: the decimal digits of VX go to I, I+1 and I+2.
    pub open spec fn ls_b_vx(self, inst: Seq<u8>) -> State {
        let b = self.vx(inst);
        let i = self.i as int;
        State {
            ram: self.ram.update(i, b / 100).update(i + 1, (b % 100) / 10).update(i + 2, b % 10),
            ..self
        }
    }

    /// `FX55`: V0..VX are stored from address I on.
    pub open spec fn ld_i_vx(self, inst: Seq<u8>) -> State {
        let (i, x) = (self.i as int, reg_x(inst));
        State {
            ram: Seq::new(
                self.ram.len(),
                |j: int| if i <= j <= i + x { self.v[j - i] } else { self.ram[j] },
            ),
            ..self
        }
    }

    /// `FX65`: V0..VX are loaded from address I on.
    pub open spec fn ld_vx_i(self, inst: Seq<u8>) -> State {
        let (i, x) = (self.i as int, reg_x(inst));
        State {
            v: Seq::new(self.v.len(), |k: int| if k <= x { self.ram[i + k] } else { self.v[k] }),
            ..self
        }
    }
}

} // verus!
