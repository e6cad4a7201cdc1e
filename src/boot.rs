use vstd::prelude::*;
use crate::cycle::Fault;
use crate::execute::font;
use crate::machine::{Computer, State, CPU, MEMORY_SIZE, PROGRAM_START, SCREEN_START};

verus! {

/// Every register, every byte of memory and every key at zero.
pub open spec fn zero_state() -> State {
    State {
        ram: Seq::new(MEMORY_SIZE as nat, |j: int| 0u8),
        v: Seq::new(16, |k: int| 0u8),
        i: 0,
        dt: 0,
        st: 0,
        pc: 0,
        sp: 0,
        stack: Seq::new(16, |k: int| 0u16),
        keyboard: Seq::new(16, |k: int| false),
    }
}

/// The state in which a program image starts: glyphs from address 0, the
/// image from the program start, zeros elsewhere, the program counter at the
/// program start and every other register at zero.
pub open spec fn boot_state(image: Seq<u8>) -> State {
    State {
        ram: Seq::new(
            MEMORY_SIZE as nat,
            |j: int|
                if j < font().len() {
                    font()[j]
                } else if PROGRAM_START <= j < PROGRAM_START + image.len() {
                    image[j - PROGRAM_START]
                } else {
                    0u8
                },
        ),
        pc: PROGRAM_START,
        ..zero_state()
    }
}

/// Whether an image of `len` bytes fits between the program start and the
/// display region.
pub open spec fn image_fits(len: nat) -> bool {
    PROGRAM_START + len <= SCREEN_START
}

impl Default for CPU {
    fn default() -> (r: CPU)
        ensures
            r.v@ == zero_state().v,
            r.i == 0 && r.dt == 0 && r.st == 0 && r.pc == 0 && r.sp == 0,
            r.stack@ == zero_state().stack,
    {
        let r = CPU { v: [0u8; 16], i: 0, dt: 0, st: 0, pc: 0, sp: 0, stack: [0u16; 16] };
        assert(r.v@ =~= zero_state().v);
        assert(r.stack@ =~= zero_state().stack);
        r
    }
}

impl Default for Computer {
    fn default() -> (r: Computer)
        ensures
            r@ == zero_state(),
    {
        let r = Computer { ram: [0u8; 4096], cpu: CPU::default(), keyboard: [false; 16] };
        assert(r.ram@ =~= zero_state().ram);
        assert(r.keyboard@ =~= zero_state().keyboard);
        r
    }
}

impl Computer {
    /// A computer ready to run `image`: zeroed, with the glyphs written, the
    /// image copied to the program start and the program counter there. An
    /// image that would reach into the display region is refused.
    pub fn load_program(image: &[u8]) -> (r: Result<Computer, Fault>)
        ensures
            image_fits(image@.len()) <==> r.is_ok(),
            r matches Ok(c) ==> c@ == boot_state(image@),
            r matches Err(f) ==> f == Fault::ImageTooLarge(image@.len() as usize),
    {
        let len = image.len();
        if len > SCREEN_START - PROGRAM_START as usize {
            return Err(Fault::ImageTooLarge(len));
        }
        let mut c = Computer::default();
        c.cpu.pc = PROGRAM_START;
        c.write_hex_sprites();
        let start = PROGRAM_START as usize;
        let mut k: usize = 0;
        while k < len
            invariant
                len == image@.len(),
                start == PROGRAM_START,
                start + len <= SCREEN_START,
                k <= len,
                c.wf(),
                c@.pc == PROGRAM_START,
                forall|j: int| 0 <= j < MEMORY_SIZE ==> #[trigger] c.ram[j] == (
                    if PROGRAM_START <= j < PROGRAM_START + k {
                        image[j - PROGRAM_START]
                    } else {
                        boot_state(seq![]).ram[j]
                    }),
                c@.v == zero_state().v,
                c@.i == 0 && c@.dt == 0 && c@.st == 0 && c@.sp == 0,
                c@.stack == zero_state().stack,
                c@.keyboard == zero_state().keyboard,
            decreases len - k,
        {
            c.ram[start + k] = image[k];
            k = k + 1;
        }
        assert(c.ram@ =~= boot_state(image@).ram);
        Ok(c)
    }
}

} // verus!
