//! An interpreter for the CHIP-8 virtual machine: instruction decoding,
//! execution over a register file and a flat memory that also backs the
//! monochrome display, and the countdown timers.
//!
//! Every operation is stated over [`State`], the abstract view of a
//! [`Computer`]; the executable methods are proved to follow it.

mod boot;
mod cycle;
mod diagnostic;
mod display;
mod entropy;
mod execute;
mod keys;
mod machine;
mod nibble;
mod opcode;
mod semantics;
mod timers;

pub use boot::{boot_state, image_fits, zero_state};
pub use cycle::{
    apply, execute_spec, fault_of, fetched, lemma_call_then_return, sets_pc, step_spec, Effect,
    Fault,
};
pub use diagnostic::{hex_char, hex_fields, hex_word, unimplemented_panic};
pub use display::{
    draw_mask, draw_row, draw_rows, first_index, first_part, lemma_draw_twice_restores,
    row_contribution, rows_fit, second_index, second_part,
};
pub use execute::font;
pub use keys::KeyEvent;
pub use machine::{Computer, State, CPU, MEMORY_SIZE, PROGRAM_START, SCREEN_START, STACK_DEPTH};
pub use nibble::{combine, nibble_seq, nibbles_value, split_nibbles};
pub use opcode::{
    addr_of, addr_operand, byte_of, byte_operand, classify, opcode_of, reg_x, reg_y, wf_inst,
    word_of, word_operand, Opcode,
};
pub use timers::{count_down, lemma_countdown_floor, Countdown};
