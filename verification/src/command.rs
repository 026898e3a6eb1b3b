//! Control commands and their fixed wire encodings.

use vstd::prelude::*;

verus! {

/// A protocol control command. `StartPrint(true)` is the trailing
/// ("last page") trigger, `StartPrint(false)` the plain one.
#[derive(Debug, Copy, Clone, PartialEq, Eq, Structural)]
pub enum Command {
    GetStatus,
    StartPrint(bool),
}

/// The exact byte sequence each command encodes to.
pub open spec fn spec_command_bytes(command: Command) -> Seq<u8> {
    match command {
        Command::GetStatus => seq![0x1Bu8, 0x69u8, 0x53u8],
        Command::StartPrint(last_page) => if last_page {
            seq![0x1Au8]
        } else {
            seq![0x0Cu8]
        },
    }
}

impl Command {
    /// Encodes the command to its fixed byte sequence.
    pub fn get_byte_sequence(&self) -> (r: Vec<u8>)
        ensures
            r@ == spec_command_bytes(*self),
    {
        match self {
            Command::GetStatus => {
                let mut v: Vec<u8> = Vec::new();
                v.push(0x1B);
                v.push(0x69);
                v.push(0x53);
                proof {
                    assert(v@ =~= spec_command_bytes(*self));
                }
                v
            },
            Command::StartPrint(last_page) => {
                let mut v: Vec<u8> = Vec::new();
                if *last_page {
                    v.push(0x1A);
                } else {
                    v.push(0x0C);
                }
                proof {
                    assert(v@ =~= spec_command_bytes(*self));
                }
                v
            },
        }
    }
}

/// The sequence that resets the printer's command buffer: two hundred
/// null bytes, sent before initialization.
pub fn clear_command() -> (r: Vec<u8>)
    ensures
        r@ =~= Seq::new(200, |i: int| 0u8),
{
    let mut v: Vec<u8> = Vec::new();
    let mut i: usize = 0;
    while i < 200
        invariant
            i <= 200,
            v@ =~= Seq::new(i as nat, |j: int| 0u8),
        decreases 200 - i,
    {
        v.push(0u8);
        i = i + 1;
    }
    v
}

/// The two-byte sequence that initializes the printer after a reset.
pub fn initialize_command() -> (r: Vec<u8>)
    ensures
        r@ =~= seq![0x1Bu8, 0x40u8],
{
    let mut v: Vec<u8> = Vec::new();
    v.push(0x1B);
    v.push(0x40);
    v
}

} // verus!
