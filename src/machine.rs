use vstd::prelude::*;

verus! {

/// Size of the byte-addressable memory.
pub const MEMORY_SIZE: usize = 4096;

/// Address at which a program image is loaded and execution starts.
pub const PROGRAM_START: u16 = 0x200;

/// First address of the display bitmap: the highest 256 + 1 bytes of memory.
/// Rows are 8 bytes wide; the most significant bit of a byte is its leftmost
/// pixel.
pub const SCREEN_START: usize = 3839;

/// Depth of the call stack.
pub const STACK_DEPTH: usize = 16;

/// The processor registers.
pub struct CPU {
    /// General registers V0..VF; VF doubles as the flag register.
    pub v: [u8; 16],
    /// The address register I.
    pub i: u16,
    /// Delay timer.
    pub dt: u8,
    /// Sound timer.
    pub st: u8,
    /// Program counter.
    pub pc: u16,
    /// Stack pointer: the number of return addresses on the stack, which is
    /// also the slot that the next call fills. It stays within 0..=15, so
    /// slot 15 is never filled.
    pub sp: u8,
    /// Return addresses, oldest first.
    pub stack: [u16; 16],
}

/// Memory, registers and the state of the 16 logical keys.
pub struct Computer {
    pub ram: [u8; 4096],
    pub cpu: CPU,
    pub keyboard: [bool; 16],
}

/// The abstract state of a [`Computer`].
pub ghost struct State {
    pub ram: Seq<u8>,
    pub v: Seq<u8>,
    pub i: u16,
    pub dt: u8,
    pub st: u8,
    pub pc: u16,
    pub sp: u8,
    pub stack: Seq<u16>,
    pub keyboard: Seq<bool>,
}

impl View for Computer {
    type V = State;

    open spec fn view(&self) -> State {
        State {
            ram: self.ram@,
            v: self.cpu.v@,
            i: self.cpu.i,
            dt: self.cpu.dt,
            st: self.cpu.st,
            pc: self.cpu.pc,
            sp: self.cpu.sp,
            stack: self.cpu.stack@,
            keyboard: self.keyboard@,
        }
    }
}

impl State {
    /// Lengths of the sequences, and a stack pointer inside the stack.
    pub open spec fn wf(self) -> bool {
        &&& self.ram.len() == MEMORY_SIZE
        &&& self.v.len() == 16
        &&& self.stack.len() == STACK_DEPTH
        &&& self.keyboard.len() == 16
        &&& self.sp < STACK_DEPTH
    }

    pub open spec fn set_v(self, x: int, b: u8) -> State {
        State { v: self.v.update(x, b), ..self }
    }

    pub open spec fn set_pc(self, pc: u16) -> State {
        State { pc: pc, ..self }
    }
}

impl Computer {
    pub open spec fn wf(&self) -> bool {
        self@.wf()
    }
}

} // verus!
