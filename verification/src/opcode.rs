//! The opcodes of the EVM as the instruction report groups them: category,
//! base gas and whether the gas is fixed; the gas split of an opcode's
//! executions; and the counts and cycles of all opcodes summed by category.
use vstd::prelude::*;

verus! {

/// Number of opcode values.
pub const OPCODE_NUMBER: usize = 256;

/// Number of buckets opcodes are summed into: one per category, and a last
/// one for values that are no opcode.
pub const CATEGORY_BUCKETS: usize = 14;

/// The category an opcode is reported under.
#[derive(Clone, Copy, Debug, PartialEq, Eq, Structural)]
pub enum OpcodeCategory {
    Stop,
    Arithmetic,
    Bitwise,
    System,
    HostEnv,
    Host,
    Memory,
    Control,
    StackPop,
    StackPush,
    StackDup,
    StackSwap,
    Invalid,
}

impl OpcodeCategory {
    /// The bucket of the category.
    pub open spec fn spec_index(self) -> int {
        match self {
            OpcodeCategory::Stop => 0,
            OpcodeCategory::Arithmetic => 1,
            OpcodeCategory::Bitwise => 2,
            OpcodeCategory::System => 3,
            OpcodeCategory::HostEnv => 4,
            OpcodeCategory::Host => 5,
            OpcodeCategory::Memory => 6,
            OpcodeCategory::Control => 7,
            OpcodeCategory::StackPop => 8,
            OpcodeCategory::StackPush => 9,
            OpcodeCategory::StackDup => 10,
            OpcodeCategory::StackSwap => 11,
            OpcodeCategory::Invalid => 12,
        }
    }

    /// The bucket of the category.
    pub fn index(&self) -> (r: usize)
        ensures
            r == self.spec_index(),
            r < CATEGORY_BUCKETS - 1,
    {
        match self {
            OpcodeCategory::Stop => 0,
            OpcodeCategory::Arithmetic => 1,
            OpcodeCategory::Bitwise => 2,
            OpcodeCategory::System => 3,
            OpcodeCategory::HostEnv => 4,
            OpcodeCategory::Host => 5,
            OpcodeCategory::Memory => 6,
            OpcodeCategory::Control => 7,
            OpcodeCategory::StackPop => 8,
            OpcodeCategory::StackPush => 9,
            OpcodeCategory::StackDup => 10,
            OpcodeCategory::StackSwap => 11,
            OpcodeCategory::Invalid => 12,
        }
    }

    /// The category's name in the report.
    pub open spec fn spec_name(self) -> &'static str {
        match self {
            OpcodeCategory::Stop => "stop",
            OpcodeCategory::Arithmetic => "arithmetic",
            OpcodeCategory::Bitwise => "bitwise",
            OpcodeCategory::System => "system",
            OpcodeCategory::HostEnv => "host_env",
            OpcodeCategory::Host => "host",
            OpcodeCategory::Memory => "memory",
            OpcodeCategory::Control => "control",
            OpcodeCategory::StackPop => "stack::pop",
            OpcodeCategory::StackPush => "stack::push",
            OpcodeCategory::StackDup => "stack::dup",
            OpcodeCategory::StackSwap => "stack::swap",
            OpcodeCategory::Invalid => "invalid",
        }
    }

    /// The category's name in the report.
    pub fn name(&self) -> (r: &'static str)
        ensures
            r == self.spec_name(),
    {
        match self {
            OpcodeCategory::Stop => "stop",
            OpcodeCategory::Arithmetic => "arithmetic",
            OpcodeCategory::Bitwise => "bitwise",
            OpcodeCategory::System => "system",
            OpcodeCategory::HostEnv => "host_env",
            OpcodeCategory::Host => "host",
            OpcodeCategory::Memory => "memory",
            OpcodeCategory::Control => "control",
            OpcodeCategory::StackPop => "stack::pop",
            OpcodeCategory::StackPush => "stack::push",
            OpcodeCategory::StackDup => "stack::dup",
            OpcodeCategory::StackSwap => "stack::swap",
            OpcodeCategory::Invalid => "invalid",
        }
    }
}

/// What the report knows of an opcode.
#[derive(Clone, Copy, Debug, PartialEq, Eq, Structural)]
pub struct OpcodeInfo {
    /// The opcode's category.
    pub category: OpcodeCategory,
    /// Its base gas fee.
    pub gas: u64,
    /// Whether the base fee is all it costs.
    pub static_gas: bool,
}

/// The report's table of opcodes: `None` for values that are no opcode.
pub open spec fn merge_map(opcode: u8) -> Option<OpcodeInfo> {
    match opcode {
        0u8 => Some(OpcodeInfo { category: OpcodeCategory::Stop, gas: 0, static_gas: true }),
        1u8 => Some(OpcodeInfo { category: OpcodeCategory::Arithmetic, gas: 3, static_gas: true }),
        2u8 => Some(OpcodeInfo { category: OpcodeCategory::Arithmetic, gas: 5, static_gas: true }),
        3u8 => Some(OpcodeInfo { category: OpcodeCategory::Arithmetic, gas: 3, static_gas: true }),
        4u8 => Some(OpcodeInfo { category: OpcodeCategory::Arithmetic, gas: 5, static_gas: true }),
        5u8 => Some(OpcodeInfo { category: OpcodeCategory::Arithmetic, gas: 5, static_gas: true }),
        6u8 => Some(OpcodeInfo { category: OpcodeCategory::Arithmetic, gas: 5, static_gas: true }),
        7u8 => Some(OpcodeInfo { category: OpcodeCategory::Arithmetic, gas: 5, static_gas: true }),
        8u8 => Some(OpcodeInfo { category: OpcodeCategory::Arithmetic, gas: 8, static_gas: true }),
        9u8 => Some(OpcodeInfo { category: OpcodeCategory::Arithmetic, gas: 8, static_gas: true }),
        10u8 => Some(OpcodeInfo { category: OpcodeCategory::Arithmetic, gas: 10, static_gas: false }),
        11u8 => Some(OpcodeInfo { category: OpcodeCategory::Arithmetic, gas: 5, static_gas: true }),
        16u8 => Some(OpcodeInfo { category: OpcodeCategory::Bitwise, gas: 3, static_gas: true }),
        17u8 => Some(OpcodeInfo { category: OpcodeCategory::Bitwise, gas: 3, static_gas: true }),
        18u8 => Some(OpcodeInfo { category: OpcodeCategory::Bitwise, gas: 3, static_gas: true }),
        19u8 => Some(OpcodeInfo { category: OpcodeCategory::Bitwise, gas: 3, static_gas: true }),
        20u8 => Some(OpcodeInfo { category: OpcodeCategory::Bitwise, gas: 3, static_gas: true }),
        21u8 => Some(OpcodeInfo { category: OpcodeCategory::Bitwise, gas: 3, static_gas: true }),
        22u8 => Some(OpcodeInfo { category: OpcodeCategory::Bitwise, gas: 3, static_gas: true }),
        23u8 => Some(OpcodeInfo { category: OpcodeCategory::Bitwise, gas: 3, static_gas: true }),
        24u8 => Some(OpcodeInfo { category: OpcodeCategory::Bitwise, gas: 3, static_gas: true }),
        25u8 => Some(OpcodeInfo { category: OpcodeCategory::Bitwise, gas: 3, static_gas: true }),
        26u8 => Some(OpcodeInfo { category: OpcodeCategory::Bitwise, gas: 3, static_gas: true }),
        27u8 => Some(OpcodeInfo { category: OpcodeCategory::Bitwise, gas: 3, static_gas: true }),
        28u8 => Some(OpcodeInfo { category: OpcodeCategory::Bitwise, gas: 3, static_gas: true }),
        29u8 => Some(OpcodeInfo { category: OpcodeCategory::Bitwise, gas: 3, static_gas: true }),
        32u8 => Some(OpcodeInfo { category: OpcodeCategory::System, gas: 30, static_gas: false }),
        48u8 => Some(OpcodeInfo { category: OpcodeCategory::System, gas: 2, static_gas: true }),
        49u8 => Some(OpcodeInfo { category: OpcodeCategory::Host, gas: 100, static_gas: false }),
        50u8 => Some(OpcodeInfo { category: OpcodeCategory::HostEnv, gas: 2, static_gas: true }),
        51u8 => Some(OpcodeInfo { category: OpcodeCategory::System, gas: 2, static_gas: true }),
        52u8 => Some(OpcodeInfo { category: OpcodeCategory::System, gas: 2, static_gas: true }),
        53u8 => Some(OpcodeInfo { category: OpcodeCategory::System, gas: 3, static_gas: true }),
        54u8 => Some(OpcodeInfo { category: OpcodeCategory::System, gas: 2, static_gas: true }),
        55u8 => Some(OpcodeInfo { category: OpcodeCategory::System, gas: 3, static_gas: false }),
        56u8 => Some(OpcodeInfo { category: OpcodeCategory::System, gas: 2, static_gas: true }),
        57u8 => Some(OpcodeInfo { category: OpcodeCategory::System, gas: 3, static_gas: false }),
        58u8 => Some(OpcodeInfo { category: OpcodeCategory::HostEnv, gas: 2, static_gas: true }),
        59u8 => Some(OpcodeInfo { category: OpcodeCategory::Host, gas: 100, static_gas: false }),
        60u8 => Some(OpcodeInfo { category: OpcodeCategory::Host, gas: 100, static_gas: false }),
        61u8 => Some(OpcodeInfo { category: OpcodeCategory::System, gas: 2, static_gas: true }),
        62u8 => Some(OpcodeInfo { category: OpcodeCategory::System, gas: 3, static_gas: false }),
        63u8 => Some(OpcodeInfo { category: OpcodeCategory::Host, gas: 100, static_gas: false }),
        64u8 => Some(OpcodeInfo { category: OpcodeCategory::Host, gas: 20, static_gas: true }),
        65u8 => Some(OpcodeInfo { category: OpcodeCategory::HostEnv, gas: 2, static_gas: true }),
        66u8 => Some(OpcodeInfo { category: OpcodeCategory::HostEnv, gas: 2, static_gas: true }),
        67u8 => Some(OpcodeInfo { category: OpcodeCategory::HostEnv, gas: 2, static_gas: true }),
        68u8 => Some(OpcodeInfo { category: OpcodeCategory::HostEnv, gas: 2, static_gas: true }),
        69u8 => Some(OpcodeInfo { category: OpcodeCategory::HostEnv, gas: 2, static_gas: true }),
        70u8 => Some(OpcodeInfo { category: OpcodeCategory::HostEnv, gas: 2, static_gas: true }),
        71u8 => Some(OpcodeInfo { category: OpcodeCategory::Host, gas: 5, static_gas: true }),
        72u8 => Some(OpcodeInfo { category: OpcodeCategory::HostEnv, gas: 2, static_gas: true }),
        73u8 => Some(OpcodeInfo { category: OpcodeCategory::HostEnv, gas: 3, static_gas: true }),
        74u8 => Some(OpcodeInfo { category: OpcodeCategory::HostEnv, gas: 2, static_gas: true }),
        80u8 => Some(OpcodeInfo { category: OpcodeCategory::StackPop, gas: 2, static_gas: true }),
        81u8 => Some(OpcodeInfo { category: OpcodeCategory::Memory, gas: 3, static_gas: true }),
        82u8 => Some(OpcodeInfo { category: OpcodeCategory::Memory, gas: 3, static_gas: true }),
        83u8 => Some(OpcodeInfo { category: OpcodeCategory::Memory, gas: 3, static_gas: true }),
        84u8 => Some(OpcodeInfo { category: OpcodeCategory::Host, gas: 100, static_gas: false }),
        85u8 => Some(OpcodeInfo { category: OpcodeCategory::Host, gas: 100, static_gas: false }),
        86u8 => Some(OpcodeInfo { category: OpcodeCategory::Control, gas: 8, static_gas: true }),
        87u8 => Some(OpcodeInfo { category: OpcodeCategory::Control, gas: 10, static_gas: true }),
        88u8 => Some(OpcodeInfo { category: OpcodeCategory::Control, gas: 2, static_gas: true }),
        89u8 => Some(OpcodeInfo { category: OpcodeCategory::Memory, gas: 2, static_gas: true }),
        90u8 => Some(OpcodeInfo { category: OpcodeCategory::System, gas: 2, static_gas: true }),
        91u8 => Some(OpcodeInfo { category: OpcodeCategory::Control, gas: 1, static_gas: true }),
        92u8 => Some(OpcodeInfo { category: OpcodeCategory::Host, gas: 100, static_gas: true }),
        93u8 => Some(OpcodeInfo { category: OpcodeCategory::Host, gas: 100, static_gas: true }),
        94u8 => Some(OpcodeInfo { category: OpcodeCategory::Memory, gas: 100, static_gas: false }),
        95u8 => Some(OpcodeInfo { category: OpcodeCategory::StackPush, gas: 2, static_gas: true }),
        96u8 => Some(OpcodeInfo { category: OpcodeCategory::StackPush, gas: 3, static_gas: true }),
        97u8 => Some(OpcodeInfo { category: OpcodeCategory::StackPush, gas: 3, static_gas: true }),
        98u8 => Some(OpcodeInfo { category: OpcodeCategory::StackPush, gas: 3, static_gas: true }),
        99u8 => Some(OpcodeInfo { category: OpcodeCategory::StackPush, gas: 3, static_gas: true }),
        100u8 => Some(OpcodeInfo { category: OpcodeCategory::StackPush, gas: 3, static_gas: true }),
        101u8 => Some(OpcodeInfo { category: OpcodeCategory::StackPush, gas: 3, static_gas: true }),
        102u8 => Some(OpcodeInfo { category: OpcodeCategory::StackPush, gas: 3, static_gas: true }),
        103u8 => Some(OpcodeInfo { category: OpcodeCategory::StackPush, gas: 3, static_gas: true }),
        104u8 => Some(OpcodeInfo { category: OpcodeCategory::StackPush, gas: 3, static_gas: true }),
        105u8 => Some(OpcodeInfo { category: OpcodeCategory::StackPush, gas: 3, static_gas: true }),
        106u8 => Some(OpcodeInfo { category: OpcodeCategory::StackPush, gas: 3, static_gas: true }),
        107u8 => Some(OpcodeInfo { category: OpcodeCategory::StackPush, gas: 3, static_gas: true }),
        108u8 => Some(OpcodeInfo { category: OpcodeCategory::StackPush, gas: 3, static_gas: true }),
        109u8 => Some(OpcodeInfo { category: OpcodeCategory::StackPush, gas: 3, static_gas: true }),
        110u8 => Some(OpcodeInfo { category: OpcodeCategory::StackPush, gas: 3, static_gas: true }),
        111u8 => Some(OpcodeInfo { category: OpcodeCategory::StackPush, gas: 3, static_gas: true }),
        112u8 => Some(OpcodeInfo { category: OpcodeCategory::StackPush, gas: 3, static_gas: true }),
        113u8 => Some(OpcodeInfo { category: OpcodeCategory::StackPush, gas: 3, static_gas: true }),
        114u8 => Some(OpcodeInfo { category: OpcodeCategory::StackPush, gas: 3, static_gas: true }),
        115u8 => Some(OpcodeInfo { category: OpcodeCategory::StackPush, gas: 3, static_gas: true }),
        116u8 => Some(OpcodeInfo { category: OpcodeCategory::StackPush, gas: 3, static_gas: true }),
        117u8 => Some(OpcodeInfo { category: OpcodeCategory::StackPush, gas: 3, static_gas: true }),
        118u8 => Some(OpcodeInfo { category: OpcodeCategory::StackPush, gas: 3, static_gas: true }),
        119u8 => Some(OpcodeInfo { category: OpcodeCategory::StackPush, gas: 3, static_gas: true }),
        120u8 => Some(OpcodeInfo { category: OpcodeCategory::StackPush, gas: 3, static_gas: true }),
        121u8 => Some(OpcodeInfo { category: OpcodeCategory::StackPush, gas: 3, static_gas: true }),
        122u8 => Some(OpcodeInfo { category: OpcodeCategory::StackPush, gas: 3, static_gas: true }),
        123u8 => Some(OpcodeInfo { category: OpcodeCategory::StackPush, gas: 3, static_gas: true }),
        124u8 => Some(OpcodeInfo { category: OpcodeCategory::StackPush, gas: 3, static_gas: true }),
        125u8 => Some(OpcodeInfo { category: OpcodeCategory::StackPush, gas: 3, static_gas: true }),
        126u8 => Some(OpcodeInfo { category: OpcodeCategory::StackPush, gas: 3, static_gas: true }),
        127u8 => Some(OpcodeInfo { category: OpcodeCategory::StackPush, gas: 3, static_gas: true }),
        128u8 => Some(OpcodeInfo { category: OpcodeCategory::StackDup, gas: 3, static_gas: true }),
        129u8 => Some(OpcodeInfo { category: OpcodeCategory::StackDup, gas: 3, static_gas: true }),
        130u8 => Some(OpcodeInfo { category: OpcodeCategory::StackDup, gas: 3, static_gas: true }),
        131u8 => Some(OpcodeInfo { category: OpcodeCategory::StackDup, gas: 3, static_gas: true }),
        132u8 => Some(OpcodeInfo { category: OpcodeCategory::StackDup, gas: 3, static_gas: true }),
        133u8 => Some(OpcodeInfo { category: OpcodeCategory::StackDup, gas: 3, static_gas: true }),
        134u8 => Some(OpcodeInfo { category: OpcodeCategory::StackDup, gas: 3, static_gas: true }),
        135u8 => Some(OpcodeInfo { category: OpcodeCategory::StackDup, gas: 3, static_gas: true }),
        136u8 => Some(OpcodeInfo { category: OpcodeCategory::StackDup, gas: 3, static_gas: true }),
        137u8 => Some(OpcodeInfo { category: OpcodeCategory::StackDup, gas: 3, static_gas: true }),
        138u8 => Some(OpcodeInfo { category: OpcodeCategory::StackDup, gas: 3, static_gas: true }),
        139u8 => Some(OpcodeInfo { category: OpcodeCategory::StackDup, gas: 3, static_gas: true }),
        140u8 => Some(OpcodeInfo { category: OpcodeCategory::StackDup, gas: 3, static_gas: true }),
        141u8 => Some(OpcodeInfo { category: OpcodeCategory::StackDup, gas: 3, static_gas: true }),
        142u8 => Some(OpcodeInfo { category: OpcodeCategory::StackDup, gas: 3, static_gas: true }),
        143u8 => Some(OpcodeInfo { category: OpcodeCategory::StackDup, gas: 3, static_gas: true }),
        144u8 => Some(OpcodeInfo { category: OpcodeCategory::StackSwap, gas: 3, static_gas: true }),
        145u8 => Some(OpcodeInfo { category: OpcodeCategory::StackSwap, gas: 3, static_gas: true }),
        146u8 => Some(OpcodeInfo { category: OpcodeCategory::StackSwap, gas: 3, static_gas: true }),
        147u8 => Some(OpcodeInfo { category: OpcodeCategory::StackSwap, gas: 3, static_gas: true }),
        148u8 => Some(OpcodeInfo { category: OpcodeCategory::StackSwap, gas: 3, static_gas: true }),
        149u8 => Some(OpcodeInfo { category: OpcodeCategory::StackSwap, gas: 3, static_gas: true }),
        150u8 => Some(OpcodeInfo { category: OpcodeCategory::StackSwap, gas: 3, static_gas: true }),
        151u8 => Some(OpcodeInfo { category: OpcodeCategory::StackSwap, gas: 3, static_gas: true }),
        152u8 => Some(OpcodeInfo { category: OpcodeCategory::StackSwap, gas: 3, static_gas: true }),
        153u8 => Some(OpcodeInfo { category: OpcodeCategory::StackSwap, gas: 3, static_gas: true }),
        154u8 => Some(OpcodeInfo { category: OpcodeCategory::StackSwap, gas: 3, static_gas: true }),
        155u8 => Some(OpcodeInfo { category: OpcodeCategory::StackSwap, gas: 3, static_gas: true }),
        156u8 => Some(OpcodeInfo { category: OpcodeCategory::StackSwap, gas: 3, static_gas: true }),
        157u8 => Some(OpcodeInfo { category: OpcodeCategory::StackSwap, gas: 3, static_gas: true }),
        158u8 => Some(OpcodeInfo { category: OpcodeCategory::StackSwap, gas: 3, static_gas: true }),
        159u8 => Some(OpcodeInfo { category: OpcodeCategory::StackSwap, gas: 3, static_gas: true }),
        160u8 => Some(OpcodeInfo { category: OpcodeCategory::Host, gas: 375, static_gas: false }),
        161u8 => Some(OpcodeInfo { category: OpcodeCategory::Host, gas: 750, static_gas: false }),
        162u8 => Some(OpcodeInfo { category: OpcodeCategory::Host, gas: 1125, static_gas: false }),
        163u8 => Some(OpcodeInfo { category: OpcodeCategory::Host, gas: 1500, static_gas: false }),
        164u8 => Some(OpcodeInfo { category: OpcodeCategory::Host, gas: 1875, static_gas: false }),
        240u8 => Some(OpcodeInfo { category: OpcodeCategory::Host, gas: 32000, static_gas: false }),
        241u8 => Some(OpcodeInfo { category: OpcodeCategory::Host, gas: 100, static_gas: false }),
        242u8 => Some(OpcodeInfo { category: OpcodeCategory::Host, gas: 100, static_gas: false }),
        243u8 => Some(OpcodeInfo { category: OpcodeCategory::Control, gas: 0, static_gas: true }),
        244u8 => Some(OpcodeInfo { category: OpcodeCategory::Host, gas: 100, static_gas: false }),
        245u8 => Some(OpcodeInfo { category: OpcodeCategory::Host, gas: 32000, static_gas: false }),
        250u8 => Some(OpcodeInfo { category: OpcodeCategory::Host, gas: 100, static_gas: false }),
        253u8 => Some(OpcodeInfo { category: OpcodeCategory::Control, gas: 0, static_gas: true }),
        254u8 => Some(OpcodeInfo { category: OpcodeCategory::Invalid, gas: 0, static_gas: true }),
        255u8 => Some(OpcodeInfo { category: OpcodeCategory::Host, gas: 5000, static_gas: false }),
        _ => None,
    }
}

/// The opcode groups of the EVM as the report lists them, range by range:
/// STOP; the arithmetic opcodes ADD to SIGNEXTEND (0x01 to 0x0b); the
/// comparison and bitwise opcodes LT to SAR (0x10 to 0x1d); KECCAK256; the
/// environment and block opcodes; POP, memory, storage and control flow;
/// PUSH0 to PUSH32, DUP1 to DUP16, SWAP1 to SWAP16; LOG0 to LOG4; the call
/// and create opcodes, RETURN, REVERT, INVALID and SELFDESTRUCT; with each
/// opcode's base gas and whether that is all it costs; the values between
/// are no opcodes.
pub proof fn lemma_opcode_groups()
    ensures
        forall|op: u8| op == 0u8 ==> merge_map(op) == Some(OpcodeInfo { category: OpcodeCategory::Stop, gas: 0, static_gas: true }),
        forall|op: u8| op == 1u8 ==> merge_map(op) == Some(OpcodeInfo { category: OpcodeCategory::Arithmetic, gas: 3, static_gas: true }),
        forall|op: u8| op == 2u8 ==> merge_map(op) == Some(OpcodeInfo { category: OpcodeCategory::Arithmetic, gas: 5, static_gas: true }),
        forall|op: u8| op == 3u8 ==> merge_map(op) == Some(OpcodeInfo { category: OpcodeCategory::Arithmetic, gas: 3, static_gas: true }),
        forall|op: u8| 4u8 <= op <= 7u8 ==> merge_map(op) == Some(OpcodeInfo { category: OpcodeCategory::Arithmetic, gas: 5, static_gas: true }),
        forall|op: u8| 8u8 <= op <= 9u8 ==> merge_map(op) == Some(OpcodeInfo { category: OpcodeCategory::Arithmetic, gas: 8, static_gas: true }),
        forall|op: u8| op == 10u8 ==> merge_map(op) == Some(OpcodeInfo { category: OpcodeCategory::Arithmetic, gas: 10, static_gas: false }),
        forall|op: u8| op == 11u8 ==> merge_map(op) == Some(OpcodeInfo { category: OpcodeCategory::Arithmetic, gas: 5, static_gas: true }),
        forall|op: u8| 12u8 <= op <= 15u8 ==> merge_map(op) is None,
        forall|op: u8| 16u8 <= op <= 29u8 ==> merge_map(op) == Some(OpcodeInfo { category: OpcodeCategory::Bitwise, gas: 3, static_gas: true }),
        forall|op: u8| 30u8 <= op <= 31u8 ==> merge_map(op) is None,
        forall|op: u8| op == 32u8 ==> merge_map(op) == Some(OpcodeInfo { category: OpcodeCategory::System, gas: 30, static_gas: false }),
        forall|op: u8| 33u8 <= op <= 47u8 ==> merge_map(op) is None,
        forall|op: u8| op == 48u8 ==> merge_map(op) == Some(OpcodeInfo { category: OpcodeCategory::System, gas: 2, static_gas: true }),
        forall|op: u8| op == 49u8 ==> merge_map(op) == Some(OpcodeInfo { category: OpcodeCategory::Host, gas: 100, static_gas: false }),
        forall|op: u8| op == 50u8 ==> merge_map(op) == Some(OpcodeInfo { category: OpcodeCategory::HostEnv, gas: 2, static_gas: true }),
        forall|op: u8| 51u8 <= op <= 52u8 ==> merge_map(op) == Some(OpcodeInfo { category: OpcodeCategory::System, gas: 2, static_gas: true }),
        forall|op: u8| op == 53u8 ==> merge_map(op) == Some(OpcodeInfo { category: OpcodeCategory::System, gas: 3, static_gas: true }),
        forall|op: u8| op == 54u8 ==> merge_map(op) == Some(OpcodeInfo { category: OpcodeCategory::System, gas: 2, static_gas: true }),
        forall|op: u8| op == 55u8 ==> merge_map(op) == Some(OpcodeInfo { category: OpcodeCategory::System, gas: 3, static_gas: false }),
        forall|op: u8| op == 56u8 ==> merge_map(op) == Some(OpcodeInfo { category: OpcodeCategory::System, gas: 2, static_gas: true }),
        forall|op: u8| op == 57u8 ==> merge_map(op) == Some(OpcodeInfo { category: OpcodeCategory::System, gas: 3, static_gas: false }),
        forall|op: u8| op == 58u8 ==> merge_map(op) == Some(OpcodeInfo { category: OpcodeCategory::HostEnv, gas: 2, static_gas: true }),
        forall|op: u8| 59u8 <= op <= 60u8 ==> merge_map(op) == Some(OpcodeInfo { category: OpcodeCategory::Host, gas: 100, static_gas: false }),
        forall|op: u8| op == 61u8 ==> merge_map(op) == Some(OpcodeInfo { category: OpcodeCategory::System, gas: 2, static_gas: true }),
        forall|op: u8| op == 62u8 ==> merge_map(op) == Some(OpcodeInfo { category: OpcodeCategory::System, gas: 3, static_gas: false }),
        forall|op: u8| op == 63u8 ==> merge_map(op) == Some(OpcodeInfo { category: OpcodeCategory::Host, gas: 100, static_gas: false }),
        forall|op: u8| op == 64u8 ==> merge_map(op) == Some(OpcodeInfo { category: OpcodeCategory::Host, gas: 20, static_gas: true }),
        forall|op: u8| 65u8 <= op <= 70u8 ==> merge_map(op) == Some(OpcodeInfo { category: OpcodeCategory::HostEnv, gas: 2, static_gas: true }),
        forall|op: u8| op == 71u8 ==> merge_map(op) == Some(OpcodeInfo { category: OpcodeCategory::Host, gas: 5, static_gas: true }),
        forall|op: u8| op == 72u8 ==> merge_map(op) == Some(OpcodeInfo { category: OpcodeCategory::HostEnv, gas: 2, static_gas: true }),
        forall|op: u8| op == 73u8 ==> merge_map(op) == Some(OpcodeInfo { category: OpcodeCategory::HostEnv, gas: 3, static_gas: true }),
        forall|op: u8| op == 74u8 ==> merge_map(op) == Some(OpcodeInfo { category: OpcodeCategory::HostEnv, gas: 2, static_gas: true }),
        forall|op: u8| 75u8 <= op <= 79u8 ==> merge_map(op) is None,
        forall|op: u8| op == 80u8 ==> merge_map(op) == Some(OpcodeInfo { category: OpcodeCategory::StackPop, gas: 2, static_gas: true }),
        forall|op: u8| 81u8 <= op <= 83u8 ==> merge_map(op) == Some(OpcodeInfo { category: OpcodeCategory::Memory, gas: 3, static_gas: true }),
        forall|op: u8| 84u8 <= op <= 85u8 ==> merge_map(op) == Some(OpcodeInfo { category: OpcodeCategory::Host, gas: 100, static_gas: false }),
        forall|op: u8| op == 86u8 ==> merge_map(op) == Some(OpcodeInfo { category: OpcodeCategory::Control, gas: 8, static_gas: true }),
        forall|op: u8| op == 87u8 ==> merge_map(op) == Some(OpcodeInfo { category: OpcodeCategory::Control, gas: 10, static_gas: true }),
        forall|op: u8| op == 88u8 ==> merge_map(op) == Some(OpcodeInfo { category: OpcodeCategory::Control, gas: 2, static_gas: true }),
        forall|op: u8| op == 89u8 ==> merge_map(op) == Some(OpcodeInfo { category: OpcodeCategory::Memory, gas: 2, static_gas: true }),
        forall|op: u8| op == 90u8 ==> merge_map(op) == Some(OpcodeInfo { category: OpcodeCategory::System, gas: 2, static_gas: true }),
        forall|op: u8| op == 91u8 ==> merge_map(op) == Some(OpcodeInfo { category: OpcodeCategory::Control, gas: 1, static_gas: true }),
        forall|op: u8| 92u8 <= op <= 93u8 ==> merge_map(op) == Some(OpcodeInfo { category: OpcodeCategory::Host, gas: 100, static_gas: true }),
        forall|op: u8| op == 94u8 ==> merge_map(op) == Some(OpcodeInfo { category: OpcodeCategory::Memory, gas: 100, static_gas: false }),
        forall|op: u8| op == 95u8 ==> merge_map(op) == Some(OpcodeInfo { category: OpcodeCategory::StackPush, gas: 2, static_gas: true }),
        forall|op: u8| 96u8 <= op <= 127u8 ==> merge_map(op) == Some(OpcodeInfo { category: OpcodeCategory::StackPush, gas: 3, static_gas: true }),
        forall|op: u8| 128u8 <= op <= 143u8 ==> merge_map(op) == Some(OpcodeInfo { category: OpcodeCategory::StackDup, gas: 3, static_gas: true }),
        forall|op: u8| 144u8 <= op <= 159u8 ==> merge_map(op) == Some(OpcodeInfo { category: OpcodeCategory::StackSwap, gas: 3, static_gas: true }),
        forall|op: u8| op == 160u8 ==> merge_map(op) == Some(OpcodeInfo { category: OpcodeCategory::Host, gas: 375, static_gas: false }),
        forall|op: u8| op == 161u8 ==> merge_map(op) == Some(OpcodeInfo { category: OpcodeCategory::Host, gas: 750, static_gas: false }),
        forall|op: u8| op == 162u8 ==> merge_map(op) == Some(OpcodeInfo { category: OpcodeCategory::Host, gas: 1125, static_gas: false }),
        forall|op: u8| op == 163u8 ==> merge_map(op) == Some(OpcodeInfo { category: OpcodeCategory::Host, gas: 1500, static_gas: false }),
        forall|op: u8| op == 164u8 ==> merge_map(op) == Some(OpcodeInfo { category: OpcodeCategory::Host, gas: 1875, static_gas: false }),
        forall|op: u8| 165u8 <= op <= 239u8 ==> merge_map(op) is None,
        forall|op: u8| op == 240u8 ==> merge_map(op) == Some(OpcodeInfo { category: OpcodeCategory::Host, gas: 32000, static_gas: false }),
        forall|op: u8| 241u8 <= op <= 242u8 ==> merge_map(op) == Some(OpcodeInfo { category: OpcodeCategory::Host, gas: 100, static_gas: false }),
        forall|op: u8| op == 243u8 ==> merge_map(op) == Some(OpcodeInfo { category: OpcodeCategory::Control, gas: 0, static_gas: true }),
        forall|op: u8| op == 244u8 ==> merge_map(op) == Some(OpcodeInfo { category: OpcodeCategory::Host, gas: 100, static_gas: false }),
        forall|op: u8| op == 245u8 ==> merge_map(op) == Some(OpcodeInfo { category: OpcodeCategory::Host, gas: 32000, static_gas: false }),
        forall|op: u8| 246u8 <= op <= 249u8 ==> merge_map(op) is None,
        forall|op: u8| op == 250u8 ==> merge_map(op) == Some(OpcodeInfo { category: OpcodeCategory::Host, gas: 100, static_gas: false }),
        forall|op: u8| 251u8 <= op <= 252u8 ==> merge_map(op) is None,
        forall|op: u8| op == 253u8 ==> merge_map(op) == Some(OpcodeInfo { category: OpcodeCategory::Control, gas: 0, static_gas: true }),
        forall|op: u8| op == 254u8 ==> merge_map(op) == Some(OpcodeInfo { category: OpcodeCategory::Invalid, gas: 0, static_gas: true }),
        forall|op: u8| op == 255u8 ==> merge_map(op) == Some(OpcodeInfo { category: OpcodeCategory::Host, gas: 5000, static_gas: false }),
{
}

/// The entry of `opcode` in the report's table.
pub fn opcode_info(opcode: u8) -> (r: Option<OpcodeInfo>)
    ensures
        r == merge_map(opcode),
{
    match opcode {
        0u8 => Some(OpcodeInfo { category: OpcodeCategory::Stop, gas: 0, static_gas: true }),
        1u8 => Some(OpcodeInfo { category: OpcodeCategory::Arithmetic, gas: 3, static_gas: true }),
        2u8 => Some(OpcodeInfo { category: OpcodeCategory::Arithmetic, gas: 5, static_gas: true }),
        3u8 => Some(OpcodeInfo { category: OpcodeCategory::Arithmetic, gas: 3, static_gas: true }),
        4u8 => Some(OpcodeInfo { category: OpcodeCategory::Arithmetic, gas: 5, static_gas: true }),
        5u8 => Some(OpcodeInfo { category: OpcodeCategory::Arithmetic, gas: 5, static_gas: true }),
        6u8 => Some(OpcodeInfo { category: OpcodeCategory::Arithmetic, gas: 5, static_gas: true }),
        7u8 => Some(OpcodeInfo { category: OpcodeCategory::Arithmetic, gas: 5, static_gas: true }),
        8u8 => Some(OpcodeInfo { category: OpcodeCategory::Arithmetic, gas: 8, static_gas: true }),
        9u8 => Some(OpcodeInfo { category: OpcodeCategory::Arithmetic, gas: 8, static_gas: true }),
        10u8 => Some(OpcodeInfo { category: OpcodeCategory::Arithmetic, gas: 10, static_gas: false }),
        11u8 => Some(OpcodeInfo { category: OpcodeCategory::Arithmetic, gas: 5, static_gas: true }),
        16u8 => Some(OpcodeInfo { category: OpcodeCategory::Bitwise, gas: 3, static_gas: true }),
        17u8 => Some(OpcodeInfo { category: OpcodeCategory::Bitwise, gas: 3, static_gas: true }),
        18u8 => Some(OpcodeInfo { category: OpcodeCategory::Bitwise, gas: 3, static_gas: true }),
        19u8 => Some(OpcodeInfo { category: OpcodeCategory::Bitwise, gas: 3, static_gas: true }),
        20u8 => Some(OpcodeInfo { category: OpcodeCategory::Bitwise, gas: 3, static_gas: true }),
        21u8 => Some(OpcodeInfo { category: OpcodeCategory::Bitwise, gas: 3, static_gas: true }),
        22u8 => Some(OpcodeInfo { category: OpcodeCategory::Bitwise, gas: 3, static_gas: true }),
        23u8 => Some(OpcodeInfo { category: OpcodeCategory::Bitwise, gas: 3, static_gas: true }),
        24u8 => Some(OpcodeInfo { category: OpcodeCategory::Bitwise, gas: 3, static_gas: true }),
        25u8 => Some(OpcodeInfo { category: OpcodeCategory::Bitwise, gas: 3, static_gas: true }),
        26u8 => Some(OpcodeInfo { category: OpcodeCategory::Bitwise, gas: 3, static_gas: true }),
        27u8 => Some(OpcodeInfo { category: OpcodeCategory::Bitwise, gas: 3, static_gas: true }),
        28u8 => Some(OpcodeInfo { category: OpcodeCategory::Bitwise, gas: 3, static_gas: true }),
        29u8 => Some(OpcodeInfo { category: OpcodeCategory::Bitwise, gas: 3, static_gas: true }),
        32u8 => Some(OpcodeInfo { category: OpcodeCategory::System, gas: 30, static_gas: false }),
        48u8 => Some(OpcodeInfo { category: OpcodeCategory::System, gas: 2, static_gas: true }),
        49u8 => Some(OpcodeInfo { category: OpcodeCategory::Host, gas: 100, static_gas: false }),
        50u8 => Some(OpcodeInfo { category: OpcodeCategory::HostEnv, gas: 2, static_gas: true }),
        51u8 => Some(OpcodeInfo { category: OpcodeCategory::System, gas: 2, static_gas: true }),
        52u8 => Some(OpcodeInfo { category: OpcodeCategory::System, gas: 2, static_gas: true }),
        53u8 => Some(OpcodeInfo { category: OpcodeCategory::System, gas: 3, static_gas: true }),
        54u8 => Some(OpcodeInfo { category: OpcodeCategory::System, gas: 2, static_gas: true }),
        55u8 => Some(OpcodeInfo { category: OpcodeCategory::System, gas: 3, static_gas: false }),
        56u8 => Some(OpcodeInfo { category: OpcodeCategory::System, gas: 2, static_gas: true }),
        57u8 => Some(OpcodeInfo { category: OpcodeCategory::System, gas: 3, static_gas: false }),
        58u8 => Some(OpcodeInfo { category: OpcodeCategory::HostEnv, gas: 2, static_gas: true }),
        59u8 => Some(OpcodeInfo { category: OpcodeCategory::Host, gas: 100, static_gas: false }),
        60u8 => Some(OpcodeInfo { category: OpcodeCategory::Host, gas: 100, static_gas: false }),
        61u8 => Some(OpcodeInfo { category: OpcodeCategory::System, gas: 2, static_gas: true }),
        62u8 => Some(OpcodeInfo { category: OpcodeCategory::System, gas: 3, static_gas: false }),
        63u8 => Some(OpcodeInfo { category: OpcodeCategory::Host, gas: 100, static_gas: false }),
        64u8 => Some(OpcodeInfo { category: OpcodeCategory::Host, gas: 20, static_gas: true }),
        65u8 => Some(OpcodeInfo { category: OpcodeCategory::HostEnv, gas: 2, static_gas: true }),
        66u8 => Some(OpcodeInfo { category: OpcodeCategory::HostEnv, gas: 2, static_gas: true }),
        67u8 => Some(OpcodeInfo { category: OpcodeCategory::HostEnv, gas: 2, static_gas: true }),
        68u8 => Some(OpcodeInfo { category: OpcodeCategory::HostEnv, gas: 2, static_gas: true }),
        69u8 => Some(OpcodeInfo { category: OpcodeCategory::HostEnv, gas: 2, static_gas: true }),
        70u8 => Some(OpcodeInfo { category: OpcodeCategory::HostEnv, gas: 2, static_gas: true }),
        71u8 => Some(OpcodeInfo { category: OpcodeCategory::Host, gas: 5, static_gas: true }),
        72u8 => Some(OpcodeInfo { category: OpcodeCategory::HostEnv, gas: 2, static_gas: true }),
        73u8 => Some(OpcodeInfo { category: OpcodeCategory::HostEnv, gas: 3, static_gas: true }),
        74u8 => Some(OpcodeInfo { category: OpcodeCategory::HostEnv, gas: 2, static_gas: true }),
        80u8 => Some(OpcodeInfo { category: OpcodeCategory::StackPop, gas: 2, static_gas: true }),
        81u8 => Some(OpcodeInfo { category: OpcodeCategory::Memory, gas: 3, static_gas: true }),
        82u8 => Some(OpcodeInfo { category: OpcodeCategory::Memory, gas: 3, static_gas: true }),
        83u8 => Some(OpcodeInfo { category: OpcodeCategory::Memory, gas: 3, static_gas: true }),
        84u8 => Some(OpcodeInfo { category: OpcodeCategory::Host, gas: 100, static_gas: false }),
        85u8 => Some(OpcodeInfo { category: OpcodeCategory::Host, gas: 100, static_gas: false }),
        86u8 => Some(OpcodeInfo { category: OpcodeCategory::Control, gas: 8, static_gas: true }),
        87u8 => Some(OpcodeInfo { category: OpcodeCategory::Control, gas: 10, static_gas: true }),
        88u8 => Some(OpcodeInfo { category: OpcodeCategory::Control, gas: 2, static_gas: true }),
        89u8 => Some(OpcodeInfo { category: OpcodeCategory::Memory, gas: 2, static_gas: true }),
        90u8 => Some(OpcodeInfo { category: OpcodeCategory::System, gas: 2, static_gas: true }),
        91u8 => Some(OpcodeInfo { category: OpcodeCategory::Control, gas: 1, static_gas: true }),
        92u8 => Some(OpcodeInfo { category: OpcodeCategory::Host, gas: 100, static_gas: true }),
        93u8 => Some(OpcodeInfo { category: OpcodeCategory::Host, gas: 100, static_gas: true }),
        94u8 => Some(OpcodeInfo { category: OpcodeCategory::Memory, gas: 100, static_gas: false }),
        95u8 => Some(OpcodeInfo { category: OpcodeCategory::StackPush, gas: 2, static_gas: true }),
        96u8 => Some(OpcodeInfo { category: OpcodeCategory::StackPush, gas: 3, static_gas: true }),
        97u8 => Some(OpcodeInfo { category: OpcodeCategory::StackPush, gas: 3, static_gas: true }),
        98u8 => Some(OpcodeInfo { category: OpcodeCategory::StackPush, gas: 3, static_gas: true }),
        99u8 => Some(OpcodeInfo { category: OpcodeCategory::StackPush, gas: 3, static_gas: true }),
        100u8 => Some(OpcodeInfo { category: OpcodeCategory::StackPush, gas: 3, static_gas: true }),
        101u8 => Some(OpcodeInfo { category: OpcodeCategory::StackPush, gas: 3, static_gas: true }),
        102u8 => Some(OpcodeInfo { category: OpcodeCategory::StackPush, gas: 3, static_gas: true }),
        103u8 => Some(OpcodeInfo { category: OpcodeCategory::StackPush, gas: 3, static_gas: true }),
        104u8 => Some(OpcodeInfo { category: OpcodeCategory::StackPush, gas: 3, static_gas: true }),
        105u8 => Some(OpcodeInfo { category: OpcodeCategory::StackPush, gas: 3, static_gas: true }),
        106u8 => Some(OpcodeInfo { category: OpcodeCategory::StackPush, gas: 3, static_gas: true }),
        107u8 => Some(OpcodeInfo { category: OpcodeCategory::StackPush, gas: 3, static_gas: true }),
        108u8 => Some(OpcodeInfo { category: OpcodeCategory::StackPush, gas: 3, static_gas: true }),
        109u8 => Some(OpcodeInfo { category: OpcodeCategory::StackPush, gas: 3, static_gas: true }),
        110u8 => Some(OpcodeInfo { category: OpcodeCategory::StackPush, gas: 3, static_gas: true }),
        111u8 => Some(OpcodeInfo { category: OpcodeCategory::StackPush, gas: 3, static_gas: true }),
        112u8 => Some(OpcodeInfo { category: OpcodeCategory::StackPush, gas: 3, static_gas: true }),
        113u8 => Some(OpcodeInfo { category: OpcodeCategory::StackPush, gas: 3, static_gas: true }),
        114u8 => Some(OpcodeInfo { category: OpcodeCategory::StackPush, gas: 3, static_gas: true }),
        115u8 => Some(OpcodeInfo { category: OpcodeCategory::StackPush, gas: 3, static_gas: true }),
        116u8 => Some(OpcodeInfo { category: OpcodeCategory::StackPush, gas: 3, static_gas: true }),
        117u8 => Some(OpcodeInfo { category: OpcodeCategory::StackPush, gas: 3, static_gas: true }),
        118u8 => Some(OpcodeInfo { category: OpcodeCategory::StackPush, gas: 3, static_gas: true }),
        119u8 => Some(OpcodeInfo { category: OpcodeCategory::StackPush, gas: 3, static_gas: true }),
        120u8 => Some(OpcodeInfo { category: OpcodeCategory::StackPush, gas: 3, static_gas: true }),
        121u8 => Some(OpcodeInfo { category: OpcodeCategory::StackPush, gas: 3, static_gas: true }),
        122u8 => Some(OpcodeInfo { category: OpcodeCategory::StackPush, gas: 3, static_gas: true }),
        123u8 => Some(OpcodeInfo { category: OpcodeCategory::StackPush, gas: 3, static_gas: true }),
        124u8 => Some(OpcodeInfo { category: OpcodeCategory::StackPush, gas: 3, static_gas: true }),
        125u8 => Some(OpcodeInfo { category: OpcodeCategory::StackPush, gas: 3, static_gas: true }),
        126u8 => Some(OpcodeInfo { category: OpcodeCategory::StackPush, gas: 3, static_gas: true }),
        127u8 => Some(OpcodeInfo { category: OpcodeCategory::StackPush, gas: 3, static_gas: true }),
        128u8 => Some(OpcodeInfo { category: OpcodeCategory::StackDup, gas: 3, static_gas: true }),
        129u8 => Some(OpcodeInfo { category: OpcodeCategory::StackDup, gas: 3, static_gas: true }),
        130u8 => Some(OpcodeInfo { category: OpcodeCategory::StackDup, gas: 3, static_gas: true }),
        131u8 => Some(OpcodeInfo { category: OpcodeCategory::StackDup, gas: 3, static_gas: true }),
        132u8 => Some(OpcodeInfo { category: OpcodeCategory::StackDup, gas: 3, static_gas: true }),
        133u8 => Some(OpcodeInfo { category: OpcodeCategory::StackDup, gas: 3, static_gas: true }),
        134u8 => Some(OpcodeInfo { category: OpcodeCategory::StackDup, gas: 3, static_gas: true }),
        135u8 => Some(OpcodeInfo { category: OpcodeCategory::StackDup, gas: 3, static_gas: true }),
        136u8 => Some(OpcodeInfo { category: OpcodeCategory::StackDup, gas: 3, static_gas: true }),
        137u8 => Some(OpcodeInfo { category: OpcodeCategory::StackDup, gas: 3, static_gas: true }),
        138u8 => Some(OpcodeInfo { category: OpcodeCategory::StackDup, gas: 3, static_gas: true }),
        139u8 => Some(OpcodeInfo { category: OpcodeCategory::StackDup, gas: 3, static_gas: true }),
        140u8 => Some(OpcodeInfo { category: OpcodeCategory::StackDup, gas: 3, static_gas: true }),
        141u8 => Some(OpcodeInfo { category: OpcodeCategory::StackDup, gas: 3, static_gas: true }),
        142u8 => Some(OpcodeInfo { category: OpcodeCategory::StackDup, gas: 3, static_gas: true }),
        143u8 => Some(OpcodeInfo { category: OpcodeCategory::StackDup, gas: 3, static_gas: true }),
        144u8 => Some(OpcodeInfo { category: OpcodeCategory::StackSwap, gas: 3, static_gas: true }),
        145u8 => Some(OpcodeInfo { category: OpcodeCategory::StackSwap, gas: 3, static_gas: true }),
        146u8 => Some(OpcodeInfo { category: OpcodeCategory::StackSwap, gas: 3, static_gas: true }),
        147u8 => Some(OpcodeInfo { category: OpcodeCategory::StackSwap, gas: 3, static_gas: true }),
        148u8 => Some(OpcodeInfo { category: OpcodeCategory::StackSwap, gas: 3, static_gas: true }),
        149u8 => Some(OpcodeInfo { category: OpcodeCategory::StackSwap, gas: 3, static_gas: true }),
        150u8 => Some(OpcodeInfo { category: OpcodeCategory::StackSwap, gas: 3, static_gas: true }),
        151u8 => Some(OpcodeInfo { category: OpcodeCategory::StackSwap, gas: 3, static_gas: true }),
        152u8 => Some(OpcodeInfo { category: OpcodeCategory::StackSwap, gas: 3, static_gas: true }),
        153u8 => Some(OpcodeInfo { category: OpcodeCategory::StackSwap, gas: 3, static_gas: true }),
        154u8 => Some(OpcodeInfo { category: OpcodeCategory::StackSwap, gas: 3, static_gas: true }),
        155u8 => Some(OpcodeInfo { category: OpcodeCategory::StackSwap, gas: 3, static_gas: true }),
        156u8 => Some(OpcodeInfo { category: OpcodeCategory::StackSwap, gas: 3, static_gas: true }),
        157u8 => Some(OpcodeInfo { category: OpcodeCategory::StackSwap, gas: 3, static_gas: true }),
        158u8 => Some(OpcodeInfo { category: OpcodeCategory::StackSwap, gas: 3, static_gas: true }),
        159u8 => Some(OpcodeInfo { category: OpcodeCategory::StackSwap, gas: 3, static_gas: true }),
        160u8 => Some(OpcodeInfo { category: OpcodeCategory::Host, gas: 375, static_gas: false }),
        161u8 => Some(OpcodeInfo { category: OpcodeCategory::Host, gas: 750, static_gas: false }),
        162u8 => Some(OpcodeInfo { category: OpcodeCategory::Host, gas: 1125, static_gas: false }),
        163u8 => Some(OpcodeInfo { category: OpcodeCategory::Host, gas: 1500, static_gas: false }),
        164u8 => Some(OpcodeInfo { category: OpcodeCategory::Host, gas: 1875, static_gas: false }),
        240u8 => Some(OpcodeInfo { category: OpcodeCategory::Host, gas: 32000, static_gas: false }),
        241u8 => Some(OpcodeInfo { category: OpcodeCategory::Host, gas: 100, static_gas: false }),
        242u8 => Some(OpcodeInfo { category: OpcodeCategory::Host, gas: 100, static_gas: false }),
        243u8 => Some(OpcodeInfo { category: OpcodeCategory::Control, gas: 0, static_gas: true }),
        244u8 => Some(OpcodeInfo { category: OpcodeCategory::Host, gas: 100, static_gas: false }),
        245u8 => Some(OpcodeInfo { category: OpcodeCategory::Host, gas: 32000, static_gas: false }),
        250u8 => Some(OpcodeInfo { category: OpcodeCategory::Host, gas: 100, static_gas: false }),
        253u8 => Some(OpcodeInfo { category: OpcodeCategory::Control, gas: 0, static_gas: true }),
        254u8 => Some(OpcodeInfo { category: OpcodeCategory::Invalid, gas: 0, static_gas: true }),
        255u8 => Some(OpcodeInfo { category: OpcodeCategory::Host, gas: 5000, static_gas: false }),
        _ => None,
    }
}

/// The category of `opcode`, if it is an opcode.
pub fn category(opcode: u8) -> (r: Option<OpcodeCategory>)
    ensures
        r == match merge_map(opcode) {
            Some(info) => Some(info.category),
            None => None::<OpcodeCategory>,
        },
{
    match opcode_info(opcode) {
        Some(info) => Some(info.category),
        None => None,
    }
}

/// The name of the category of `opcode`, if it is an opcode.
pub fn category_name(opcode: u8) -> (r: Option<&'static str>)
    ensures
        r == match merge_map(opcode) {
            Some(info) => Some(info.category.spec_name()),
            None => None::<&'static str>,
        },
{
    match opcode_info(opcode) {
        Some(info) => Some(info.category.name()),
        None => None,
    }
}

/// The base gas of `opcode`, if it is an opcode.
pub fn static_gas(opcode: u8) -> (r: Option<u64>)
    ensures
        r == match merge_map(opcode) {
            Some(info) => Some(info.gas),
            None => None::<u64>,
        },
{
    match opcode_info(opcode) {
        Some(info) => Some(info.gas),
        None => None,
    }
}

/// The gas of `count` executions of an opcode whose base fee is `gas`: the
/// product, or 0 where it does not fit in a `u64`.
pub open spec fn static_total(gas: u64, count: u64) -> int {
    if gas * count <= u64::MAX { gas * count } else { 0 }
}

/// The gas figures of `count` executions of `opcode` that used `total_gas`
/// in all: (gas counted, base gas, gas beyond the base fees). For a value
/// that is no opcode all are 0. Where the base fee is all an opcode costs,
/// the gas counted is the base fees and nothing goes beyond them; else the
/// gas counted is `total_gas`, and what exceeds the base fees goes beyond.
pub open spec fn gas_parts_spec(opcode: u8, count: u64, total_gas: i128) -> (int, int, int) {
    match merge_map(opcode) {
        None => (0, 0, 0),
        Some(info) => {
            let s = static_total(info.gas, count);
            if info.static_gas {
                (s, info.gas as int, 0)
            } else {
                (total_gas as int, info.gas as int, if total_gas > s { total_gas - s } else { 0 })
            }
        },
    }
}

/// The gas figures of `count` executions of `opcode` that used `total_gas`;
/// see `gas_parts_spec`. The gas beyond the base fees per execution is the
/// third figure divided by `count`.
pub fn gas_parts(opcode: u8, count: u64, total_gas: i128) -> (r: (i128, u64, i128))
    ensures
        (r.0 as int, r.1 as int, r.2 as int) == gas_parts_spec(opcode, count, total_gas),
{
    match opcode_info(opcode) {
        None => (0, 0, 0),
        Some(info) => {
            let s: u64 = match info.gas.checked_mul(count) {
                Some(p) => p,
                None => 0,
            };
            let s128: i128 = s as i128;
            if info.static_gas {
                (s128, info.gas, 0)
            } else {
                let beyond: i128 = if total_gas > s128 { total_gas - s128 } else { 0 };
                (total_gas, info.gas, beyond)
            }
        },
    }
}

/// The bucket `opcode` is summed into: its category's, or the last one.
pub open spec fn bucket(opcode: int) -> int {
    match merge_map(opcode as u8) {
        Some(info) => info.category.spec_index(),
        None => CATEGORY_BUCKETS - 1,
    }
}

/// The counts of the first `n` opcodes of `s`.
pub open spec fn count_sum(s: Seq<(u64, u64, i128)>, n: int) -> int
    decreases n,
{
    if n <= 0 { 0 } else { count_sum(s, n - 1) + s[n - 1].0 }
}

/// The cycles of the first `n` opcodes of `s`.
pub open spec fn time_sum(s: Seq<(u64, u64, i128)>, n: int) -> int
    decreases n,
{
    if n <= 0 { 0 } else { time_sum(s, n - 1) + s[n - 1].1 }
}

/// The counts of those of the first `n` opcodes of `s` in bucket `b`.
pub open spec fn bucket_count(s: Seq<(u64, u64, i128)>, b: int, n: int) -> int
    decreases n,
{
    if n <= 0 { 0 } else { bucket_count(s, b, n - 1) + if bucket(n - 1) == b { s[n - 1].0 as int } else { 0 } }
}

/// The cycles of those of the first `n` opcodes of `s` in bucket `b`.
pub open spec fn bucket_time(s: Seq<(u64, u64, i128)>, b: int, n: int) -> int
    decreases n,
{
    if n <= 0 { 0 } else { bucket_time(s, b, n - 1) + if bucket(n - 1) == b { s[n - 1].1 as int } else { 0 } }
}

/// A bucket's sums are no larger than the sums over all opcodes.
pub proof fn lemma_bucket_le_total(s: Seq<(u64, u64, i128)>, b: int, n: int)
    ensures
        0 <= bucket_count(s, b, n) <= count_sum(s, n),
        0 <= bucket_time(s, b, n) <= time_sum(s, n),
    decreases n,
{
    if n > 0 {
        lemma_bucket_le_total(s, b, n - 1);
    }
}

/// The sums grow with the number of opcodes summed.
pub proof fn lemma_sums_grow(s: Seq<(u64, u64, i128)>, m: int, n: int)
    requires
        m <= n,
    ensures
        count_sum(s, m) <= count_sum(s, n),
        time_sum(s, m) <= time_sum(s, n),
    decreases n - m,
{
    if m < n {
        lemma_sums_grow(s, m, n - 1);
    }
}

/// Counts and cycles of all opcodes, and of each bucket.
#[derive(Clone, Debug)]
pub struct OpcodeTotals {
    pub count: u64,
    pub time: u64,
    /// (count, cycles) of each bucket, by its index.
    pub buckets: Vec<(u64, u64)>,
}

/// Sums the (count, cycles, gas) of each opcode value, in order of value,
/// over all opcodes and by bucket.
pub fn opcode_totals(records: &Vec<(u64, u64, i128)>) -> (r: OpcodeTotals)
    requires
        records@.len() <= OPCODE_NUMBER,
        count_sum(records@, records@.len() as int) <= u64::MAX,
        time_sum(records@, records@.len() as int) <= u64::MAX,
    ensures
        r.count == count_sum(records@, records@.len() as int),
        r.time == time_sum(records@, records@.len() as int),
        r.buckets@.len() == CATEGORY_BUCKETS,
        forall|b: int| 0 <= b < CATEGORY_BUCKETS ==> #[trigger] r.buckets@[b].0 == bucket_count(records@, b, records@.len() as int)
            && r.buckets@[b].1 == bucket_time(records@, b, records@.len() as int),
{
    let ghost s = records@;
    let ghost len = s.len() as int;
    let mut buckets: Vec<(u64, u64)> = Vec::new();
    let mut k: usize = 0;
    while k < CATEGORY_BUCKETS
        invariant
            k <= CATEGORY_BUCKETS,
            buckets@.len() == k,
            forall|b: int| 0 <= b < k ==> #[trigger] buckets@[b] == (0u64, 0u64),
        decreases CATEGORY_BUCKETS - k,
    {
        buckets.push((0, 0));
        k = k + 1;
    }
    let mut count: u64 = 0;
    let mut time: u64 = 0;
    let mut i: usize = 0;
    while i < records.len()
        invariant
            s == records@,
            len == s.len(),
            len <= OPCODE_NUMBER,
            count_sum(s, len) <= u64::MAX,
            time_sum(s, len) <= u64::MAX,
            0 <= i <= len,
            count == count_sum(s, i as int),
            time == time_sum(s, i as int),
            buckets@.len() == CATEGORY_BUCKETS,
            forall|b: int| 0 <= b < CATEGORY_BUCKETS ==> #[trigger] buckets@[b].0 == bucket_count(s, b, i as int)
                && buckets@[b].1 == bucket_time(s, b, i as int),
        decreases len - i,
    {
        let (c, t, _) = records[i];
        proof {
            lemma_sums_grow(s, i + 1, len);
        }
        count = count + c;
        time = time + t;
        let op: u8 = i as u8;
        let b: usize = match category(op) {
            Some(cat) => cat.index(),
            None => CATEGORY_BUCKETS - 1,
        };
        assert(b == bucket(i as int));
        let (bc, bt) = buckets[b];
        proof {
            lemma_bucket_le_total(s, b as int, i + 1);
        }
        assert(bucket_count(s, b as int, i + 1) == bc + c);
        buckets.set(b, (bc + c, bt + t));
        i = i + 1;
    }
    OpcodeTotals { count, time, buckets }
}

/// The counts of the first `n` opcodes of `s` over the buckets below `k`.
pub open spec fn buckets_count(s: Seq<(u64, u64, i128)>, n: int, k: int) -> int
    decreases k,
{
    if k <= 0 { 0 } else { buckets_count(s, n, k - 1) + bucket_count(s, k - 1, n) }
}

/// The cycles of the first `n` opcodes of `s` over the buckets below `k`.
pub open spec fn buckets_time(s: Seq<(u64, u64, i128)>, n: int, k: int) -> int
    decreases k,
{
    if k <= 0 { 0 } else { buckets_time(s, n, k - 1) + bucket_time(s, k - 1, n) }
}

/// Each opcode value falls in one of the buckets.
proof fn lemma_bucket_range(i: int)
    ensures
        0 <= bucket(i) < CATEGORY_BUCKETS,
{
}

/// Adding one opcode raises the sums over the buckets below `k` by its
/// figures exactly when its bucket is below `k`.
proof fn lemma_buckets_step(s: Seq<(u64, u64, i128)>, n: int, k: int)
    requires
        n >= 1,
    ensures
        buckets_count(s, n, k) == buckets_count(s, n - 1, k) + if 0 <= bucket(n - 1) < k { s[n - 1].0 as int } else { 0 },
        buckets_time(s, n, k) == buckets_time(s, n - 1, k) + if 0 <= bucket(n - 1) < k { s[n - 1].1 as int } else { 0 },
    decreases k,
{
    if k > 0 {
        lemma_buckets_step(s, n, k - 1);
    }
}

/// Every opcode's executions and cycles are counted in exactly one
/// bucket: the buckets add up to the totals over all opcodes.
pub proof fn lemma_buckets_add_up(s: Seq<(u64, u64, i128)>, n: int)
    requires
        n >= 0,
    ensures
        buckets_count(s, n, CATEGORY_BUCKETS as int) == count_sum(s, n),
        buckets_time(s, n, CATEGORY_BUCKETS as int) == time_sum(s, n),
    decreases n,
{
    if n > 0 {
        lemma_buckets_add_up(s, n - 1);
        lemma_buckets_step(s, n, CATEGORY_BUCKETS as int);
        lemma_bucket_range(n - 1);
    } else {
        lemma_buckets_zero(s, CATEGORY_BUCKETS as int);
    }
}

/// Over no opcodes every bucket is empty.
proof fn lemma_buckets_zero(s: Seq<(u64, u64, i128)>, k: int)
    ensures
        buckets_count(s, 0, k) == 0,
        buckets_time(s, 0, k) == 0,
    decreases k,
{
    if k > 0 {
        lemma_buckets_zero(s, k - 1);
    }
}

/// The report's name of each category.
pub proof fn lemma_category_names()
    ensures
        OpcodeCategory::Stop.spec_name() == "stop",
        OpcodeCategory::Arithmetic.spec_name() == "arithmetic",
        OpcodeCategory::Bitwise.spec_name() == "bitwise",
        OpcodeCategory::System.spec_name() == "system",
        OpcodeCategory::HostEnv.spec_name() == "host_env",
        OpcodeCategory::Host.spec_name() == "host",
        OpcodeCategory::Memory.spec_name() == "memory",
        OpcodeCategory::Control.spec_name() == "control",
        OpcodeCategory::StackPop.spec_name() == "stack::pop",
        OpcodeCategory::StackPush.spec_name() == "stack::push",
        OpcodeCategory::StackDup.spec_name() == "stack::dup",
        OpcodeCategory::StackSwap.spec_name() == "stack::swap",
        OpcodeCategory::Invalid.spec_name() == "invalid",
{
}

/// The gas split of an opcode's executions: no figures for a value that is
/// no opcode; the base gas is the table's; for a fixed-cost opcode the gas
/// counted is the base fee times the executions (0 where that overflows)
/// and nothing goes beyond it; for another opcode the gas counted is the
/// gas used, and what goes beyond the base fees is the excess of the gas
/// used over them, or nothing.
pub proof fn lemma_gas_split(opcode: u8, count: u64, total_gas: i128)
    ensures
        ({
            let r = gas_parts_spec(opcode, count, total_gas);
            match merge_map(opcode) {
                None => r == (0int, 0int, 0int),
                Some(info) => {
                    let fees = if info.gas * count <= u64::MAX { info.gas * count } else { 0 };
                    &&& r.1 == info.gas
                    &&& info.static_gas ==> r.0 == fees && r.2 == 0
                    &&& !info.static_gas ==> r.0 == total_gas && r.2 >= 0 && (r.2 == 0 <==> total_gas <= fees)
                        && (r.2 > 0 ==> r.2 + fees == total_gas)
                },
            }
        }),
{
}

} // verus!
