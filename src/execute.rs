use vstd::prelude::*;
use crate::machine::{Computer, State, MEMORY_SIZE};
use crate::opcode::{addr_of, addr_operand, byte_of, byte_operand, reg_x, wf_inst};

verus! {

/// The glyphs of the hexadecimal digits 0..F, five bytes each.
pub open spec fn font() -> Seq<u8> {
    seq![
        0xF0u8, 0x90, 0x90, 0x90, 0xF0, 0x20, 0x60, 0x20, 0x20, 0x70,
        0xF0, 0x10, 0xF0, 0x80, 0xF0, 0xF0, 0x10, 0xF0, 0x10, 0xF0,
        0x90, 0x90, 0xF0, 0x10, 0x10, 0xF0, 0x80, 0xF0, 0x10, 0xF0,
        0xF0, 0x80, 0xF0, 0x90, 0xF0, 0xF0, 0x10, 0x20, 0x40, 0x40,
        0xF0, 0x90, 0xF0, 0x90, 0xF0, 0xF0, 0x90, 0xF0, 0x10, 0xF0,
        0xF0, 0x90, 0xF0, 0x90, 0x90, 0xE0, 0x90, 0xE0, 0x90, 0xE0,
        0xF0, 0x80, 0x80, 0x80, 0xF0, 0xE0, 0x90, 0x90, 0x90, 0xE0,
        0xF0, 0x80, 0xF0, 0x80, 0xF0, 0xF0, 0x80, 0xF0, 0x80, 0x80,
    ]
}

impl State {
    /// The glyphs written at the bottom of memory.
    pub open spec fn with_font(self) -> State {
        State { ram: font() + self.ram.subrange(font().len() as int, self.ram.len() as int), ..self }
    }
}

impl Computer {
    /// Writes the glyphs of the 16 hexadecimal digits from address 0 on.
    pub fn write_hex_sprites(&mut self)
        requires
            old(self).wf(),
        ensures
            final(self)@ == old(self)@.with_font(),
    {
        let sprites: [u8; 80] = [
            0xF0, 0x90, 0x90, 0x90, 0xF0, // 0
            0x20, 0x60, 0x20, 0x20, 0x70, // 1
            0xF0, 0x10, 0xF0, 0x80, 0xF0, // 2
            0xF0, 0x10, 0xF0, 0x10, 0xF0, // 3
            0x90, 0x90, 0xF0, 0x10, 0x10, // 4
            0xF0, 0x80, 0xF0, 0x10, 0xF0, // 5
            0xF0, 0x80, 0xF0, 0x90, 0xF0, // 6
            0xF0, 0x10, 0x20, 0x40, 0x40, // 7
            0xF0, 0x90, 0xF0, 0x90, 0xF0, // 8
            0xF0, 0x90, 0xF0, 0x10, 0xF0, // 9
            0xF0, 0x90, 0xF0, 0x90, 0x90, // A
            0xE0, 0x90, 0xE0, 0x90, 0xE0, // B
            0xF0, 0x80, 0x80, 0x80, 0xF0, // C
            0xE0, 0x90, 0x90, 0x90, 0xE0, // D
            0xF0, 0x80, 0xF0, 0x80, 0xF0, // E
            0xF0, 0x80, 0xF0, 0x80, 0x80, // F
        ];
        assert(sprites@ =~= font());
        let mut k: usize = 0;
        while k < 80
            invariant
                k <= 80,
                sprites@ == font(),
                self.cpu == old(self).cpu,
                self.keyboard == old(self).keyboard,
                forall|j: int| 0 <= j < MEMORY_SIZE ==> #[trigger] self.ram[j] == (
                    if j < k { font()[j] } else { old(self).ram[j] }),
            decreases 80 - k,
        {
            self.ram[k] = sprites[k];
            k = k + 1;
        }
        assert(self.ram@ =~= old(self)@.with_font().ram);
    }

    /// `ANNN`
    pub fn ld_i_addr(&mut self, inst: &[u8; 4])
        requires
            wf_inst(inst@),
        ensures
            final(self)@ == old(self)@.ld_i_addr(inst@),
    {
        self.cpu.i = addr_operand(inst);
    }

    /// `1NNN`
    pub fn jmp_addr(&mut self, inst: &[u8; 4])
        requires
            wf_inst(inst@),
        ensures
            final(self)@ == old(self)@.jmp_addr(inst@),
    {
        self.cpu.pc = addr_operand(inst);
    }

    /// `BNNN`
    pub fn jp_v0_addr(&mut self, inst: &[u8; 4])
        requires
            wf_inst(inst@),
        ensures
            final(self)@ == old(self)@.jp_v0_addr(inst@),
    {
        let addr = addr_operand(inst);
        self.cpu.pc = addr + self.cpu.v[0] as u16;
    }

    /// `2NNN`: requires the stack pointer to stay below 16 after the push.
    pub fn call_addr(&mut self, inst: &[u8; 4])
        requires
            wf_inst(inst@),
            old(self).wf(),
            old(self).cpu.sp + 1 < 16,
        ensures
            final(self)@ == old(self)@.call_addr(inst@),
    {
        self.cpu.stack[self.cpu.sp as usize] = self.cpu.pc;
        self.cpu.sp = self.cpu.sp + 1;
        self.cpu.pc = addr_operand(inst);
    }

    /// `00EE`: requires a return address on the stack.
    pub fn ret(&mut self)
        requires
            old(self).wf(),
            old(self).cpu.sp > 0,
        ensures
            final(self)@ == old(self)@.ret(),
    {
        self.cpu.pc = self.cpu.stack[self.cpu.sp as usize - 1];
        self.cpu.sp = self.cpu.sp - 1;
    }

    /// `3XKK`
    pub fn se_vx_byte(&mut self, inst: &[u8; 4])
        requires
            wf_inst(inst@),
        ensures
            final(self)@ == old(self)@.se_vx_byte(inst@),
    {
        let kk = byte_operand(inst);
        let vx = self.cpu.v[inst[1] as usize];
        if kk == vx {
            self.cpu.pc = self.cpu.pc.wrapping_add(2);
        }
    }

    /// `4XKK`
    pub fn sne_vx_byte(&mut self, inst: &[u8; 4])
        requires
            wf_inst(inst@),
        ensures
            final(self)@ == old(self)@.sne_vx_byte(inst@),
    {
        let kk = byte_operand(inst);
        let vx = self.cpu.v[inst[1] as usize];
        if kk != vx {
            self.cpu.pc = self.cpu.pc.wrapping_add(2);
        }
    }

    /// `5XY0`
    pub fn se_vx_vy(&mut self, inst: &[u8; 4])
        requires
            wf_inst(inst@),
        ensures
            final(self)@ == old(self)@.se_vx_vy(inst@),
    {
        let vx = self.cpu.v[inst[1] as usize];
        let vy = self.cpu.v[inst[2] as usize];
        if vx == vy {
            self.cpu.pc = self.cpu.pc.wrapping_add(2);
        }
    }

    /// `9XY0`
    pub fn sne_vx_vy(&mut self, inst: &[u8; 4])
        requires
            wf_inst(inst@),
        ensures
            final(self)@ == old(self)@.sne_vx_vy(inst@),
    {
        let vx = self.cpu.v[inst[1] as usize];
        let vy = self.cpu.v[inst[2] as usize];
        if vx != vy {
            self.cpu.pc = self.cpu.pc.wrapping_add(2);
        }
    }

    /// `6XKK`
    pub fn ld_vx_byte(&mut self, inst: &[u8; 4])
        requires
            wf_inst(inst@),
        ensures
            final(self)@ == old(self)@.ld_vx_byte(inst@),
    {
        let kk = byte_operand(inst);
        self.cpu.v[inst[1] as usize] = kk;
    }

    /// `7XKK`
    pub fn add_vx_byte(&mut self, inst: &[u8; 4])
        requires
            wf_inst(inst@),
        ensures
            final(self)@ == old(self)@.add_vx_byte(inst@),
    {
        let kk = byte_operand(inst);
        let x = inst[1] as usize;
        self.cpu.v[x] = self.cpu.v[x].wrapping_add(kk);
    }

    /// `8XY0`
    pub fn ld_vx_vy(&mut self, inst: &[u8; 4])
        requires
            wf_inst(inst@),
        ensures
            final(self)@ == old(self)@.ld_vx_vy(inst@),
    {
        let x = inst[1] as usize;
        let y = inst[2] as usize;
        self.cpu.v[x] = self.cpu.v[y];
    }

    /// `8XY1`
    pub fn or_vx_vy(&mut self, inst: &[u8; 4])
        requires
            wf_inst(inst@),
        ensures
            final(self)@ == old(self)@.or_vx_vy(inst@),
    {
        let x = inst[1] as usize;
        let y = inst[2] as usize;
        self.cpu.v[x] = self.cpu.v[x] | self.cpu.v[y];
    }

    /// `8XY2`
    pub fn and_vx_vy(&mut self, inst: &[u8; 4])
        requires
            wf_inst(inst@),
        ensures
            final(self)@ == old(self)@.and_vx_vy(inst@),
    {
        let x = inst[1] as usize;
        let y = inst[2] as usize;
        self.cpu.v[x] = self.cpu.v[x] & self.cpu.v[y];
    }

    /// `8XY3`
    pub fn xor_vx_vy(&mut self, inst: &[u8; 4])
        requires
            wf_inst(inst@),
        ensures
            final(self)@ == old(self)@.xor_vx_vy(inst@),
    {
        let x = inst[1] as usize;
        let y = inst[2] as usize;
        self.cpu.v[x] = self.cpu.v[x] ^ self.cpu.v[y];
    }

    /// `8XY4`
    pub fn add_vx_vy(&mut self, inst: &[u8; 4])
        requires
            wf_inst(inst@),
        ensures
            final(self)@ == old(self)@.add_vx_vy(inst@),
    {
        let x = inst[1] as usize;
        let y = inst[2] as usize;
        // VF is set on overflow
        self.cpu.v[15] = if self.cpu.v[x] as u16 + self.cpu.v[y] as u16 > 255 { 1 } else { 0 };
        self.cpu.v[x] = self.cpu.v[x].wrapping_add(self.cpu.v[y]);
    }

    /// `8XY5`
    pub fn sub_vx_vy(&mut self, inst: &[u8; 4])
        requires
            wf_inst(inst@),
        ensures
            final(self)@ == old(self)@.sub_vx_vy(inst@),
    {
        let x = inst[1] as usize;
        let y = inst[2] as usize;
        // VF is set when VX > VY
        self.cpu.v[15] = if self.cpu.v[x] > self.cpu.v[y] { 1 } else { 0 };
        self.cpu.v[x] = self.cpu.v[x].wrapping_sub(self.cpu.v[y]);
    }

    /// `8XY6`
    pub fn shr_vx(&mut self, inst: &[u8; 4])
        requires
            wf_inst(inst@),
        ensures
            final(self)@ == old(self)@.shr_vx(inst@),
    {
        let x = inst[1] as usize;
        let b = self.cpu.v[x];
        assert(b & 1 == b % 2) by (bit_vector);
        // VF is set when VX is odd
        self.cpu.v[15] = b & 1;
        let b = self.cpu.v[x];
        assert(b >> 1u8 == b / 2) by (bit_vector);
        self.cpu.v[x] = b >> 1u8;
    }

    /// `8XYE`
    pub fn shl_vx(&mut self, inst: &[u8; 4])
        requires
            wf_inst(inst@),
        ensures
            final(self)@ == old(self)@.shl_vx(inst@),
    {
        let x = inst[1] as usize;
        let b = self.cpu.v[x];
        assert(b & 0x80 == if b >= 0x80 { 0x80u8 } else { 0u8 }) by (bit_vector);
        // VF takes the high bit of VX, in place
        self.cpu.v[15] = b & 0x80;
        let b = self.cpu.v[x];
        assert(b << 1u8 == (b * 2) % 256) by (bit_vector);
        self.cpu.v[x] = b << 1u8;
    }

    /// `8XY7`
    pub fn subn_vx_vy(&mut self, inst: &[u8; 4])
        requires
            wf_inst(inst@),
        ensures
            final(self)@ == old(self)@.subn_vx_vy(inst@),
    {
        let x = inst[1] as usize;
        let y = inst[2] as usize;
        // VF is set when VY > VX
        self.cpu.v[15] = if self.cpu.v[y] > self.cpu.v[x] { 1 } else { 0 };
        self.cpu.v[x] = self.cpu.v[y].wrapping_sub(self.cpu.v[x]);
    }

    /// `FX1E`
    pub fn add_i_vx(&mut self, inst: &[u8; 4])
        requires
            wf_inst(inst@),
        ensures
            final(self)@ == old(self)@.add_i_vx(inst@),
    {
        let x = inst[1] as usize;
        self.cpu.i = self.cpu.i.wrapping_add(self.cpu.v[x] as u16);
    }

    /// `FX29`
    pub fn lf_f_vx(&mut self, inst: &[u8; 4])
        requires
            wf_inst(inst@),
        ensures
            final(self)@ == old(self)@.lf_f_vx(inst@),
    {
        self.cpu.i = self.cpu.v[inst[1] as usize] as u16 * 5;
    }

    /// `FX33`: requires I + 2 to lie in memory.
    pub fn ls_b_vx(&mut self, inst: &[u8; 4])
        requires
            wf_inst(inst@),
            old(self).cpu.i + 2 < MEMORY_SIZE,
        ensures
            final(self)@ == old(self)@.ls_b_vx(inst@),
    {
        let vx = self.cpu.v[inst[1] as usize];
        let i = self.cpu.i as usize;
        self.ram[i] = vx / 100;
        self.ram[i + 1] = (vx % 100) / 10;
        self.ram[i + 2] = vx % 10;
    }

    /// `FX55`: requires I + X to lie in memory.
    pub fn ld_i_vx(&mut self, inst: &[u8; 4])
        requires
            wf_inst(inst@),
            old(self).cpu.i + inst@[1] < MEMORY_SIZE,
        ensures
            final(self)@ == old(self)@.ld_i_vx(inst@),
    {
        let x = inst[1] as usize;
        let base = self.cpu.i as usize;
        let mut k: usize = 0;
        while k <= x
            invariant
                x == inst@[1],
                x < 16,
                base == old(self).cpu.i,
                base + x < MEMORY_SIZE,
                k <= x + 1,
                self.cpu == old(self).cpu,
                self.keyboard == old(self).keyboard,
                forall|j: int| 0 <= j < MEMORY_SIZE ==> #[trigger] self.ram[j] == (
                    if base <= j < base + k { old(self).cpu.v[j - base] } else { old(self).ram[j] }),
            decreases x + 1 - k,
        {
            self.ram[base + k] = self.cpu.v[k];
            k = k + 1;
        }
        assert(self.ram@ =~= old(self)@.ld_i_vx(inst@).ram);
    }

    /// `FX65`: requires I + X to lie in memory.
    pub fn ld_vx_i(&mut self, inst: &[u8; 4])
        requires
            wf_inst(inst@),
            old(self).cpu.i + inst@[1] < MEMORY_SIZE,
        ensures
            final(self)@ == old(self)@.ld_vx_i(inst@),
    {
        let x = inst[1] as usize;
        let base = self.cpu.i as usize;
        let mut k: usize = 0;
        while k <= x
            invariant
                x == inst@[1],
                x < 16,
                base == old(self).cpu.i,
                base + x < MEMORY_SIZE,
                k <= x + 1,
                self.ram == old(self).ram,
                self.keyboard == old(self).keyboard,
                self.cpu.i == old(self).cpu.i,
                self.cpu.dt == old(self).cpu.dt,
                self.cpu.st == old(self).cpu.st,
                self.cpu.pc == old(self).cpu.pc,
                self.cpu.sp == old(self).cpu.sp,
                self.cpu.stack == old(self).cpu.stack,
                forall|j: int| 0 <= j < 16 ==> #[trigger] self.cpu.v[j] == (
                    if j < k { old(self).ram[base + j] } else { old(self).cpu.v[j] }),
            decreases x + 1 - k,
        {
            self.cpu.v[k] = self.ram[base + k];
            k = k + 1;
        }
        assert(self.cpu.v@ =~= old(self)@.ld_vx_i(inst@).v);
    }

    /// `FX07`
    pub fn ld_vx_dt(&mut self, inst: &[u8; 4])
        requires
            wf_inst(inst@),
        ensures
            final(self)@ == old(self)@.ld_vx_dt(inst@),
    {
        self.cpu.v[inst[1] as usize] = self.cpu.dt;
    }

    /// `FX15`
    pub fn ld_dt_vx(&mut self, inst: &[u8; 4])
        requires
            wf_inst(inst@),
        ensures
            final(self)@ == old(self)@.ld_dt_vx(inst@),
    {
        self.cpu.dt = self.cpu.v[inst[1] as usize];
    }

    /// `FX18`
    pub fn ld_st_vx(&mut self, inst: &[u8; 4])
        requires
            wf_inst(inst@),
        ensures
            final(self)@ == old(self)@.ld_st_vx(inst@),
    {
        self.cpu.st = self.cpu.v[inst[1] as usize];
    }

    /// `FX0A`, once key `key` has come: it is stored in VX.
    pub fn ld_vx_k(&mut self, x: u8, key: u8)
        requires
            x < 16,
            key < 16,
        ensures
            final(self)@ == old(self)@.ld_vx_k(x as int, key),
    {
        self.cpu.v[x as usize] = key;
    }

    /// `EX9E`: requires VX to name a key.
    pub fn skp_vx(&mut self, inst: &[u8; 4])
        requires
            wf_inst(inst@),
            old(self)@.vx(inst@) < 16,
        ensures
            final(self)@ == old(self)@.skp_vx(inst@),
    {
        let vx = self.cpu.v[inst[1] as usize];
        if self.keyboard[vx as usize] {
            self.cpu.pc = self.cpu.pc.wrapping_add(2);
        }
    }

    /// `EXA1`: requires VX to name a key.
    pub fn sknp_vx(&mut self, inst: &[u8; 4])
        requires
            wf_inst(inst@),
            old(self)@.vx(inst@) < 16,
        ensures
            final(self)@ == old(self)@.sknp_vx(inst@),
    {
        let vx = self.cpu.v[inst[1] as usize];
        if !self.keyboard[vx as usize] {
            self.cpu.pc = self.cpu.pc.wrapping_add(2);
        }
    }

    /// `CXKK`, with `random` the byte drawn for it.
    pub fn rnd_vx_byte_with(&mut self, inst: &[u8; 4], random: u8)
        requires
            wf_inst(inst@),
        ensures
            final(self)@ == old(self)@.rnd_vx_byte(inst@, random),
    {
        let kk = byte_operand(inst);
        self.cpu.v[inst[1] as usize] = kk & random;
    }
}

} // verus!
