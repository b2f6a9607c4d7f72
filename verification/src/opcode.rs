//! Instructions of the virtual machine and their mnemonics.

use ethers_core::types::Opcode;
use vstd::prelude::*;

verus! {

/// The mnemonic that the opcode table gives for the instruction byte `code`,
/// if the table knows the byte.
pub uninterp spec fn opcode_mnemonic(code: u8) -> Option<Seq<char>>;

/// Looks `code` up in the opcode table of `ethers_core` (`Opcode::try_from`)
/// and renders the entry with its `Display` impl. Trusted: the result is the
/// table's mnemonic for the byte, and `None` exactly where the table has no
/// entry for it.
#[verifier::external_body]
fn mnemonic_of_code(code: u8) -> (name: Option<String>)
    ensures
        match name {
            Some(text) => opcode_mnemonic(code) == Some(text@),
            None => opcode_mnemonic(code) is None,
        },
{
    match Opcode::try_from(code) {
        Ok(opcode) => Some(opcode.to_string()),
        Err(_) => None,
    }
}

/// An instruction byte that the opcode table knows.
#[derive(Clone, Copy, Debug, PartialEq, Eq)]
pub struct KnownOpcode {
    code: u8,
}

impl KnownOpcode {
    #[verifier::type_invariant]
    spec fn in_table(self) -> bool {
        opcode_mnemonic(self.code) is Some
    }

    /// The instruction byte.
    pub closed spec fn byte(self) -> u8 {
        self.code
    }

    /// The mnemonic of the instruction.
    pub open spec fn name(self) -> Seq<char> {
        opcode_mnemonic(self.byte()).unwrap()
    }

    /// The instruction with byte `code`, if the opcode table knows it.
    pub fn new(code: u8) -> (opcode: Option<KnownOpcode>)
        ensures
            opcode is Some <==> opcode_mnemonic(code) is Some,
            opcode matches Some(known) ==> known.byte() == code,
    {
        match mnemonic_of_code(code) {
            Some(_) => Some(KnownOpcode { code }),
            None => None,
        }
    }

    /// The instruction byte.
    pub fn code(&self) -> (code: u8)
        ensures
            code == self.byte(),
    {
        self.code
    }

    /// The mnemonic of the instruction.
    pub fn mnemonic(&self) -> (text: String)
        ensures
            text@ == self.name(),
            opcode_mnemonic(self.byte()) is Some,
    {
        proof {
            use_type_invariant(self);
        }
        match mnemonic_of_code(self.code) {
            Some(text) => text,
            None => String::new(),
        }
    }
}

/// The instruction that one step of a trace executed.
#[derive(Clone, Debug, PartialEq, Eq)]
pub enum ExecutedInstruction {
    /// An instruction of the opcode table.
    Known(KnownOpcode),
    /// An instruction that the table does not know, by the name the node gave it.
    Unknown(String),
}

impl ExecutedInstruction {
    /// The text that stands for the instruction in a row.
    pub open spec fn text(self) -> Seq<char> {
        match self {
            ExecutedInstruction::Known(opcode) => opcode.name(),
            ExecutedInstruction::Unknown(name) => name@,
        }
    }

    /// The text that stands for the instruction in a row: the mnemonic of a
    /// known instruction, and the given name of an unknown one as it is.
    pub fn to_text(&self) -> (text: String)
        ensures
            text@ == self.text(),
    {
        match self {
            ExecutedInstruction::Known(opcode) => opcode.mnemonic(),
            ExecutedInstruction::Unknown(name) => name.clone(),
        }
    }
}

} // verus!
