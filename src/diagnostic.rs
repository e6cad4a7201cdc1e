use vstd::prelude::*;
use crate::cycle::Fault;
use crate::nibble::nibble_seq;

verus! {

/// The lower-case hexadecimal digit of a value below 16.
pub open spec fn hex_char(n: u8) -> char {
    if n < 10 {
        (n + 48) as char
    } else {
        (n + 87) as char
    }
}

/// Four hexadecimal digits, most significant first.
pub open spec fn hex_word(w: u16) -> Seq<char> {
    seq![
        hex_char((w / 4096) as u8),
        hex_char(((w / 256) % 16) as u8),
        hex_char(((w / 16) % 16) as u8),
        hex_char((w % 16) as u8),
    ]
}

/// The digits of the four fields of an instruction.
pub open spec fn hex_fields(inst: Seq<u8>) -> Seq<char> {
    seq![hex_char(inst[0]), hex_char(inst[1]), hex_char(inst[2]), hex_char(inst[3])]
}

fn hex_digit(n: u8) -> (r: &'static str)
    requires
        n < 16,
    ensures
        r@ == seq![hex_char(n)],
{
    match n {
        0 => {
            proof {
                reveal_strlit("0");
            }
            "0"
        },
        1 => {
            proof {
                reveal_strlit("1");
            }
            "1"
        },
        2 => {
            proof {
                reveal_strlit("2");
            }
            "2"
        },
        3 => {
            proof {
                reveal_strlit("3");
            }
            "3"
        },
        4 => {
            proof {
                reveal_strlit("4");
            }
            "4"
        },
        5 => {
            proof {
                reveal_strlit("5");
            }
            "5"
        },
        6 => {
            proof {
                reveal_strlit("6");
            }
            "6"
        },
        7 => {
            proof {
                reveal_strlit("7");
            }
            "7"
        },
        8 => {
            proof {
                reveal_strlit("8");
            }
            "8"
        },
        9 => {
            proof {
                reveal_strlit("9");
            }
            "9"
        },
        10 => {
            proof {
                reveal_strlit("a");
            }
            "a"
        },
        11 => {
            proof {
                reveal_strlit("b");
            }
            "b"
        },
        12 => {
            proof {
                reveal_strlit("c");
            }
            "c"
        },
        13 => {
            proof {
                reveal_strlit("d");
            }
            "d"
        },
        14 => {
            proof {
                reveal_strlit("e");
            }
            "e"
        },
        _ => {
            proof {
                reveal_strlit("f");
            }
            "f"
        },
    }
}

fn append_word(s: &mut String, w: u16)
    ensures
        final(s)@ == old(s)@ + hex_word(w),
{
    s.append(hex_digit((w / 4096) as u8));
    s.append(hex_digit(((w / 256) % 16) as u8));
    s.append(hex_digit(((w / 16) % 16) as u8));
    s.append(hex_digit((w % 16) as u8));
    assert(s@ =~= old(s)@ + hex_word(w));
}

/// The diagnostic with which an unimplemented instruction stops the
/// interpreter: a fixed text followed by the instruction's four fields in
/// hexadecimal.
pub fn unimplemented_panic(inst: &[u8; 4]) -> (r: String)
    requires
        nibble_seq(inst@),
    ensures
        r@ == "unimplemented instruction: "@ + hex_fields(inst@),
{
    let mut s = String::from_str("unimplemented instruction: ");
    s.append(hex_digit(inst[0]));
    s.append(hex_digit(inst[1]));
    s.append(hex_digit(inst[2]));
    s.append(hex_digit(inst[3]));
    assert(s@ =~= "unimplemented instruction: "@ + hex_fields(inst@));
    s
}

impl Fault {
    /// The text that goes with a fault's instruction word or address.
    pub open spec fn prefix(self) -> Seq<char> {
        match self {
            Fault::Unimplemented(_) => "unimplemented instruction: "@,
            Fault::StackOverflow(_) => "call with a full stack: "@,
            Fault::StackUnderflow(_) => "return with an empty stack: "@,
            Fault::OutOfBounds(_) => "access outside memory or keys: "@,
            Fault::PcOutOfRange(_) => "program counter outside memory: "@,
            Fault::ImageTooLarge(_) => "program image too large"@,
        }
    }

    /// The diagnostic for the fault: its text, then the instruction word (or
    /// the program counter) in hexadecimal.
    pub open spec fn message_spec(self) -> Seq<char> {
        match self {
            Fault::Unimplemented(w) => self.prefix() + hex_word(w),
            Fault::StackOverflow(w) => self.prefix() + hex_word(w),
            Fault::StackUnderflow(w) => self.prefix() + hex_word(w),
            Fault::OutOfBounds(w) => self.prefix() + hex_word(w),
            Fault::PcOutOfRange(w) => self.prefix() + hex_word(w),
            Fault::ImageTooLarge(_) => self.prefix(),
        }
    }

    /// The diagnostic for the fault.
    pub fn message(&self) -> (r: String)
        ensures
            r@ == self.message_spec(),
    {
        match *self {
            Fault::Unimplemented(w) => {
                let mut s = String::from_str("unimplemented instruction: ");
                append_word(&mut s, w);
                s
            },
            Fault::StackOverflow(w) => {
                let mut s = String::from_str("call with a full stack: ");
                append_word(&mut s, w);
                s
            },
            Fault::StackUnderflow(w) => {
                let mut s = String::from_str("return with an empty stack: ");
                append_word(&mut s, w);
                s
            },
            Fault::OutOfBounds(w) => {
                let mut s = String::from_str("access outside memory or keys: ");
                append_word(&mut s, w);
                s
            },
            Fault::PcOutOfRange(w) => {
                let mut s = String::from_str("program counter outside memory: ");
                append_word(&mut s, w);
                s
            },
            Fault::ImageTooLarge(_) => String::from_str("program image too large"),
        }
    }
}

} // verus!
