//! Opcode identifiers and gas-cost constants used by handlers and gadgets.

use vstd::prelude::*;

verus! {

/// Number of slots in the machine stack; the stack pointer of an empty stack.
pub const STACK_CAPACITY: usize = 1024;

/// The opcodes this crate's handlers and gadgets speak about.
#[derive(Clone, Copy, Debug, PartialEq, Eq, Structural)]
pub enum OpcodeId {
    CALLER,
    ORIGIN,
    EXTCODECOPY,
    CODECOPY,
    RETURN,
    REVERT,
    BALANCE,
    EXTCODESIZE,
    EXTCODEHASH,
    STOP,
    I32Const,
    I64Const,
    Drop,
    Call,
    Eqz,
    TableFill,
}

impl OpcodeId {
    /// The static part of the opcode's gas cost.
    pub fn constant_gas_cost(&self) -> (r: u64)
        ensures
            r == self.spec_constant_gas_cost(),
    {
        match self {
            OpcodeId::CALLER => 2,
            OpcodeId::ORIGIN => 2,
            OpcodeId::EXTCODECOPY => 0,
            OpcodeId::CODECOPY => 3,
            OpcodeId::RETURN => 0,
            OpcodeId::REVERT => 0,
            OpcodeId::BALANCE => 0,
            OpcodeId::EXTCODESIZE => 0,
            OpcodeId::EXTCODEHASH => 0,
            OpcodeId::STOP => 0,
            OpcodeId::I32Const => 1,
            OpcodeId::I64Const => 1,
            OpcodeId::Drop => 1,
            OpcodeId::Call => 1,
            OpcodeId::Eqz => 1,
            OpcodeId::TableFill => 3,
        }
    }

    pub open spec fn spec_constant_gas_cost(self) -> u64 {
        match self {
            OpcodeId::CALLER => 2,
            OpcodeId::ORIGIN => 2,
            OpcodeId::EXTCODECOPY => 0,
            OpcodeId::CODECOPY => 3,
            OpcodeId::RETURN => 0,
            OpcodeId::REVERT => 0,
            OpcodeId::BALANCE => 0,
            OpcodeId::EXTCODESIZE => 0,
            OpcodeId::EXTCODEHASH => 0,
            OpcodeId::STOP => 0,
            OpcodeId::I32Const => 1,
            OpcodeId::I64Const => 1,
            OpcodeId::Drop => 1,
            OpcodeId::Call => 1,
            OpcodeId::Eqz => 1,
            OpcodeId::TableFill => 3,
        }
    }

    /// Small numeric identifier, used where a row must hold the opcode.
    pub fn as_u64(&self) -> (r: u64)
        ensures
            r == self.spec_as_u64(),
    {
        match self {
            OpcodeId::CALLER => 0x33,
            OpcodeId::ORIGIN => 0x32,
            OpcodeId::EXTCODECOPY => 0x3c,
            OpcodeId::CODECOPY => 0x39,
            OpcodeId::RETURN => 0xf3,
            OpcodeId::REVERT => 0xfd,
            OpcodeId::BALANCE => 0x31,
            OpcodeId::EXTCODESIZE => 0x3b,
            OpcodeId::EXTCODEHASH => 0x3f,
            OpcodeId::STOP => 0x00,
            OpcodeId::I32Const => 0x41,
            OpcodeId::I64Const => 0x42,
            OpcodeId::Drop => 0x1a,
            OpcodeId::Call => 0x10,
            OpcodeId::Eqz => 0x45,
            OpcodeId::TableFill => 0x11,
        }
    }

    pub open spec fn spec_as_u64(self) -> u64 {
        match self {
            OpcodeId::CALLER => 0x33,
            OpcodeId::ORIGIN => 0x32,
            OpcodeId::EXTCODECOPY => 0x3c,
            OpcodeId::CODECOPY => 0x39,
            OpcodeId::RETURN => 0xf3,
            OpcodeId::REVERT => 0xfd,
            OpcodeId::BALANCE => 0x31,
            OpcodeId::EXTCODESIZE => 0x3b,
            OpcodeId::EXTCODEHASH => 0x3f,
            OpcodeId::STOP => 0x00,
            OpcodeId::I32Const => 0x41,
            OpcodeId::I64Const => 0x42,
            OpcodeId::Drop => 0x1a,
            OpcodeId::Call => 0x10,
            OpcodeId::Eqz => 0x45,
            OpcodeId::TableFill => 0x11,
        }
    }
}

/// Gas charged for touching an address already in the access list.
pub const GAS_WARM_ACCESS: u64 = 100;

/// Gas charged for the first touch of an address in a transaction.
pub const GAS_COLD_ACCOUNT_ACCESS: u64 = 2600;

} // verus!
