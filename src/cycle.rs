use vstd::prelude::*;
use crate::machine::{Computer, State, MEMORY_SIZE, SCREEN_START};
use crate::nibble::split_nibbles;
use crate::opcode::{classify, opcode_of, reg_x, wf_inst, word_of, word_operand, Opcode};

verus! {

/// A fatal condition met while loading or running a program.
#[derive(Clone, Copy, Debug, PartialEq, Eq, Structural)]
pub enum Fault {
    /// The instruction word matches no operation.
    Unimplemented(u16),
    /// A call found all stack slots taken.
    StackOverflow(u16),
    /// A return found the stack empty.
    StackUnderflow(u16),
    /// The instruction would read or write outside memory, or test a key
    /// number above 15.
    OutOfBounds(u16),
    /// The program counter leaves no whole instruction to fetch.
    PcOutOfRange(u16),
    /// A program image of this length does not fit below the display region.
    ImageTooLarge(usize),
}

/// What the surroundings of the interpreter have to do after an instruction.
#[derive(Clone, Copy, Debug, PartialEq, Eq, Structural)]
pub enum Effect {
    /// Nothing.
    Continue,
    /// The display changed and is to be shown again.
    Redraw,
    /// The delay timer was set to this value.
    DelaySet(u8),
    /// The sound timer was set to this value.
    SoundSet(u8),
    /// The interpreter waits for a key; it goes into this register.
    AwaitKey(u8),
}

/// The fault that an instruction meets in state `s`, if any.
pub open spec fn fault_of(s: State, inst: Seq<u8>) -> Option<Fault> {
    let w = word_of(inst);
    match opcode_of(inst) {
        Opcode::Unknown => Some(Fault::Unimplemented(w)),
        Opcode::Call => if s.sp + 1 >= 16 { Some(Fault::StackOverflow(w)) } else { None },
        Opcode::Ret => if s.sp == 0 { Some(Fault::StackUnderflow(w)) } else { None },
        Opcode::DrwVxVyNibble => if !s.draw_fits(inst) { Some(Fault::OutOfBounds(w)) } else { None },
        Opcode::SkpVx | Opcode::SknpVx => if s.vx(inst) >= 16 {
            Some(Fault::OutOfBounds(w))
        } else {
            None
        },
        Opcode::LdBVx => if s.i + 2 >= MEMORY_SIZE { Some(Fault::OutOfBounds(w)) } else { None },
        Opcode::LdIVx | Opcode::LdVxI => if s.i + inst[1] >= MEMORY_SIZE {
            Some(Fault::OutOfBounds(w))
        } else {
            None
        },
        _ => None,
    }
}

/// The operations that set the program counter themselves.
pub open spec fn sets_pc(op: Opcode) -> bool {
    op == Opcode::Jp || op == Opcode::Call || op == Opcode::JpV0Addr
}

/// The state after an instruction that meets no fault, before the program
/// counter advances, and the effect it has; `random` is the byte that
/// `CXKK` masks.
pub open spec fn apply(s: State, inst: Seq<u8>, random: u8) -> (State, Effect) {
    match opcode_of(inst) {
        Opcode::Cls => (s.cls(), Effect::Continue),
        Opcode::Ret => (s.ret(), Effect::Continue),
        Opcode::Jp => (s.jmp_addr(inst), Effect::Continue),
        Opcode::Call => (s.call_addr(inst), Effect::Continue),
        Opcode::SeVxByte => (s.se_vx_byte(inst), Effect::Continue),
        Opcode::SneVxByte => (s.sne_vx_byte(inst), Effect::Continue),
        Opcode::SeVxVy => (s.se_vx_vy(inst), Effect::Continue),
        Opcode::LdVxByte => (s.ld_vx_byte(inst), Effect::Continue),
        Opcode::AddVxByte => (s.add_vx_byte(inst), Effect::Continue),
        Opcode::LdVxVy => (s.ld_vx_vy(inst), Effect::Continue),
        Opcode::OrVxVy => (s.or_vx_vy(inst), Effect::Continue),
        Opcode::AndVxVy => (s.and_vx_vy(inst), Effect::Continue),
        Opcode::XorVxVy => (s.xor_vx_vy(inst), Effect::Continue),
        Opcode::AddVxVy => (s.add_vx_vy(inst), Effect::Continue),
        Opcode::SubVxVy => (s.sub_vx_vy(inst), Effect::Continue),
        Opcode::ShrVx => (s.shr_vx(inst), Effect::Continue),
        Opcode::SubnVxVy => (s.subn_vx_vy(inst), Effect::Continue),
        Opcode::ShlVx => (s.shl_vx(inst), Effect::Continue),
        Opcode::SneVxVy => (s.sne_vx_vy(inst), Effect::Continue),
        Opcode::LdIAddr => (s.ld_i_addr(inst), Effect::Continue),
        Opcode::JpV0Addr => (s.jp_v0_addr(inst), Effect::Continue),
        Opcode::RndVxByte => (s.rnd_vx_byte(inst, random), Effect::Continue),
        Opcode::DrwVxVyNibble => (s.drw_vx_vy_nibble(inst), Effect::Redraw),
        Opcode::SkpVx => (s.skp_vx(inst), Effect::Continue),
        Opcode::SknpVx => (s.sknp_vx(inst), Effect::Continue),
        Opcode::LdVxDt => (s.ld_vx_dt(inst), Effect::Continue),
        Opcode::LdVxK => (s, Effect::AwaitKey(inst[1])),
        Opcode::LdDtVx => (s.ld_dt_vx(inst), Effect::DelaySet(s.vx(inst))),
        Opcode::LdStVx => (s.ld_st_vx(inst), Effect::SoundSet(s.vx(inst))),
        Opcode::AddIVx => (s.add_i_vx(inst), Effect::Continue),
        Opcode::LdFVx => (s.lf_f_vx(inst), Effect::Continue),
        Opcode::LdBVx => (s.ls_b_vx(inst), Effect::Continue),
        Opcode::LdIVx => (s.ld_i_vx(inst), Effect::Continue),
        Opcode::LdVxI => (s.ld_vx_i(inst), Effect::Continue),
        Opcode::Unknown => (s, Effect::Continue),
    }
}

/// One instruction: a fault leaves the state as it was; otherwise the
/// operation is applied and, unless it set the program counter itself, the
/// counter advances by 2.
pub open spec fn execute_spec(s: State, inst: Seq<u8>, random: u8) -> (State, Result<Effect, Fault>) {
    match fault_of(s, inst) {
        Some(f) => (s, Err(f)),
        None => {
            let (t, e) = apply(s, inst, random);
            (if sets_pc(opcode_of(inst)) { t } else { t.skipped() }, Ok(e))
        },
    }
}

/// The fields of the instruction at the program counter.
pub open spec fn fetched(s: State) -> Seq<u8> {
    let (hi, lo) = (s.ram[s.pc as int], s.ram[s.pc + 1]);
    seq![hi / 16, hi % 16, lo / 16, lo % 16]
}

/// One cycle: fetch the instruction at the program counter and execute it.
pub open spec fn step_spec(s: State, random: u8) -> (State, Result<Effect, Fault>) {
    if s.pc + 1 >= MEMORY_SIZE {
        (s, Err(Fault::PcOutOfRange(s.pc)))
    } else {
        execute_spec(s, fetched(s), random)
    }
}

/// A call followed at once by a return puts the program counter and the
/// stack pointer back where they were. Executed as instructions, the return
/// then moves on past the call.
pub proof fn lemma_call_then_return(s: State, call: Seq<u8>, random: u8)
    requires
        s.wf(),
        wf_inst(call),
        opcode_of(call) == Opcode::Call,
        s.sp + 1 < 16,
    ensures
        s.call_addr(call).ret().pc == s.pc,
        s.call_addr(call).ret().sp == s.sp,
        ({
            let (s1, r1) = execute_spec(s, call, random);
            let (s2, r2) = execute_spec(s1, seq![0u8, 0u8, 0xEu8, 0xEu8], random);
            &&& r1 == Ok::<Effect, Fault>(Effect::Continue)
            &&& r2 == Ok::<Effect, Fault>(Effect::Continue)
            &&& s2.pc == (s.pc + 2) % 0x10000
            &&& s2.sp == s.sp
        }),
{
    let ret_inst = seq![0u8, 0u8, 0xEu8, 0xEu8];
    assert(opcode_of(ret_inst) == Opcode::Ret);
}

impl Computer {
    /// The fault that instruction `inst` would meet now, if any.
    fn check_fault(&self, inst: &[u8; 4], op: Opcode) -> (r: Option<Fault>)
        requires
            wf_inst(inst@),
            op == opcode_of(inst@),
        ensures
            r == fault_of(self@, inst@),
    {
        let w = word_operand(inst);
        let x = inst[1];
        let vx = self.cpu.v[x as usize];
        match op {
            Opcode::Unknown => Some(Fault::Unimplemented(w)),
            Opcode::Call => if self.cpu.sp >= 15 {
                Some(Fault::StackOverflow(w))
            } else {
                None
            },
            Opcode::Ret => if self.cpu.sp == 0 {
                Some(Fault::StackUnderflow(w))
            } else {
                None
            },
            Opcode::DrwVxVyNibble => if !self.draw_fits(inst) {
                Some(Fault::OutOfBounds(w))
            } else {
                None
            },
            Opcode::SkpVx | Opcode::SknpVx => if vx >= 16 {
                Some(Fault::OutOfBounds(w))
            } else {
                None
            },
            Opcode::LdBVx => if self.cpu.i as usize + 2 >= MEMORY_SIZE {
                Some(Fault::OutOfBounds(w))
            } else {
                None
            },
            Opcode::LdIVx | Opcode::LdVxI => if self.cpu.i as usize + x as usize >= MEMORY_SIZE {
                Some(Fault::OutOfBounds(w))
            } else {
                None
            },
            _ => None,
        }
    }

    /// Applies an instruction that meets no fault, leaving the program
    /// counter's advance to the caller.
    #[verifier::rlimit(30)]
    fn apply_op(&mut self, inst: &[u8; 4], op: Opcode, random: u8) -> (e: Effect)
        requires
            wf_inst(inst@),
            old(self).wf(),
            op == opcode_of(inst@),
            fault_of(old(self)@, inst@) is None,
        ensures
            (final(self)@, e) == apply(old(self)@, inst@, random),
            final(self).wf(),
    {
        let x = inst[1];
        let vx = self.cpu.v[x as usize];
        match op {
            Opcode::Unknown => Effect::Continue,
            Opcode::Cls => {
                self.cls();
                Effect::Continue
            },
            Opcode::Ret => {
                self.ret();
                Effect::Continue
            },
            Opcode::Jp => {
                self.jmp_addr(inst);
                Effect::Continue
            },
            Opcode::Call => {
                self.call_addr(inst);
                Effect::Continue
            },
            Opcode::SeVxByte => {
                self.se_vx_byte(inst);
                Effect::Continue
            },
            Opcode::SneVxByte => {
                self.sne_vx_byte(inst);
                Effect::Continue
            },
            Opcode::SeVxVy => {
                self.se_vx_vy(inst);
                Effect::Continue
            },
            Opcode::LdVxByte => {
                self.ld_vx_byte(inst);
                Effect::Continue
            },
            Opcode::AddVxByte => {
                self.add_vx_byte(inst);
                Effect::Continue
            },
            Opcode::LdVxVy => {
                self.ld_vx_vy(inst);
                Effect::Continue
            },
            Opcode::OrVxVy => {
                self.or_vx_vy(inst);
                Effect::Continue
            },
            Opcode::AndVxVy => {
                self.and_vx_vy(inst);
                Effect::Continue
            },
            Opcode::XorVxVy => {
                self.xor_vx_vy(inst);
                Effect::Continue
            },
            Opcode::AddVxVy => {
                self.add_vx_vy(inst);
                Effect::Continue
            },
            Opcode::SubVxVy => {
                self.sub_vx_vy(inst);
                Effect::Continue
            },
            Opcode::ShrVx => {
                self.shr_vx(inst);
                Effect::Continue
            },
            Opcode::SubnVxVy => {
                self.subn_vx_vy(inst);
                Effect::Continue
            },
            Opcode::ShlVx => {
                self.shl_vx(inst);
                Effect::Continue
            },
            Opcode::SneVxVy => {
                self.sne_vx_vy(inst);
                Effect::Continue
            },
            Opcode::LdIAddr => {
                self.ld_i_addr(inst);
                Effect::Continue
            },
            Opcode::JpV0Addr => {
                self.jp_v0_addr(inst);
                Effect::Continue
            },
            Opcode::RndVxByte => {
                self.rnd_vx_byte_with(inst, random);
                Effect::Continue
            },
            Opcode::DrwVxVyNibble => {
                self.drw_vx_vy_nibble(inst);
                Effect::Redraw
            },
            Opcode::SkpVx => {
                self.skp_vx(inst);
                Effect::Continue
            },
            Opcode::SknpVx => {
                self.sknp_vx(inst);
                Effect::Continue
            },
            Opcode::LdVxDt => {
                self.ld_vx_dt(inst);
                Effect::Continue
            },
            Opcode::LdVxK => Effect::AwaitKey(x),
            Opcode::LdDtVx => {
                self.ld_dt_vx(inst);
                Effect::DelaySet(vx)
            },
            Opcode::LdStVx => {
                self.ld_st_vx(inst);
                Effect::SoundSet(vx)
            },
            Opcode::AddIVx => {
                self.add_i_vx(inst);
                Effect::Continue
            },
            Opcode::LdFVx => {
                self.lf_f_vx(inst);
                Effect::Continue
            },
            Opcode::LdBVx => {
                self.ls_b_vx(inst);
                Effect::Continue
            },
            Opcode::LdIVx => {
                self.ld_i_vx(inst);
                Effect::Continue
            },
            Opcode::LdVxI => {
                self.ld_vx_i(inst);
                Effect::Continue
            },
        }
    }

    /// Executes one instruction. On a fault nothing changes; otherwise the
    /// operation is applied and the program counter advances by 2 unless the
    /// operation set it. `random` is the byte that `CXKK` masks.
    pub fn execute(&mut self, inst: &[u8; 4], random: u8) -> (r: Result<Effect, Fault>)
        requires
            wf_inst(inst@),
            old(self).wf(),
        ensures
            (final(self)@, r) == execute_spec(old(self)@, inst@, random),
            final(self).wf(),
    {
        let op = classify(inst);
        if let Some(f) = self.check_fault(inst, op) {
            return Err(f);
        }
        let effect = self.apply_op(inst, op, random);
        if !(op == Opcode::Jp || op == Opcode::Call || op == Opcode::JpV0Addr) {
            self.cpu.pc = self.cpu.pc.wrapping_add(2);
        }
        Ok(effect)
    }

    /// `CXKK`: VX becomes KK AND a freshly drawn random byte.
    pub fn rnd_vx_byte(&mut self, inst: &[u8; 4])
        requires
            wf_inst(inst@),
        ensures
            exists|b: u8| final(self)@ == old(self)@.rnd_vx_byte(inst@, b),
    {
        let random_byte = rand::random::<u8>();
        self.rnd_vx_byte_with(inst, random_byte);
    }

    /// One cycle with a freshly drawn random byte for `CXKK`.
    pub fn cycle(&mut self) -> (r: Result<Effect, Fault>)
        requires
            old(self).wf(),
        ensures
            exists|b: u8| (final(self)@, r) == step_spec(old(self)@, b),
            final(self).wf(),
    {
        let random_byte = rand::random::<u8>();
        self.step(random_byte)
    }

    /// Whether every byte that the draw instruction `inst` touches lies in
    /// memory.
    fn draw_fits(&self, inst: &[u8; 4]) -> (r: bool)
        requires
            wf_inst(inst@),
        ensures
            r == self@.draw_fits(inst@),
    {
        let x = self.cpu.v[inst[1] as usize] as usize;
        let y = self.cpu.v[inst[2] as usize] as usize;
        let n = inst[3] as usize;
        if self.cpu.i as usize + n > MEMORY_SIZE {
            false
        } else if n == 0 {
            true
        } else {
            let last = SCREEN_START + (y + n - 1) * 8;
            last + x / 8 < MEMORY_SIZE && last + (x / 8 + 1) % 8 < MEMORY_SIZE
        }
    }

    /// One cycle: fetches the two bytes at the program counter, splits them
    /// into fields and executes the instruction. `random` is the byte that
    /// `CXKK` masks.
    pub fn step(&mut self, random: u8) -> (r: Result<Effect, Fault>)
        requires
            old(self).wf(),
        ensures
            (final(self)@, r) == step_spec(old(self)@, random),
            final(self).wf(),
    {
        let pc = self.cpu.pc as usize;
        if pc + 1 >= MEMORY_SIZE {
            return Err(Fault::PcOutOfRange(self.cpu.pc));
        }
        let inst = split_nibbles(self.ram[pc], self.ram[pc + 1]);
        proof {
            let (hi, lo) = (self.ram[pc as int], self.ram[pc + 1]);
            assert(hi / 16 < 16 && hi % 16 < 16 && lo / 16 < 16 && lo % 16 < 16);
            assert(inst@ == fetched(self@));
        }
        self.execute(&inst, random)
    }
}

} // verus!
