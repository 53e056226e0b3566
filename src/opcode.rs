use vstd::prelude::*;

verus! {

/// How an instruction finds its operand.
#[allow(non_camel_case_types)]
#[derive(Debug, Clone, Copy, PartialEq, Eq, Structural)]
pub enum AddressingMode {
    Immediate,
    ZeroPage,
    ZeroPage_X,
    ZeroPage_Y,
    Absolute,
    Absolute_X,
    Absolute_Y,
    Indirect_X,
    Indirect_Y,
    /// No memory operand: register-only, accumulator-only, or a branch
    /// that reads its displacement itself.
    NonAddressing,
}

/// The operation an opcode stands for.
#[allow(non_camel_case_types)]
#[derive(Debug, Clone, Copy, PartialEq, Eq, Structural)]
pub enum OpCodeName {
    LDA, LDX, STA, TAX, INX,
    BRK, PHA, PHP, JSR, RTS,
    PLA, PLP, RTI, ADC, AND,
    ASL, BCC, BCS, BEQ, BIT,
    BMI, BNE, BPL, BVC, BVS,
    CLC, CLD, CLI, CLV, CMP,
    CPX,
}

/// What an opcode byte means: its operation, how many bytes the instruction
/// takes (the opcode included), its cycle count (informational only) and
/// its addressing mode.
#[derive(Debug, Clone, Copy, PartialEq, Eq, Structural)]
pub struct OpCode {
    pub byte: u8,
    pub name: OpCodeName,
    pub len: usize,
    pub cycles: usize,
    pub mode: AddressingMode,
}

/// The first entry of `entries` whose opcode byte is `byte`.
pub open spec fn find_opcode(entries: Seq<OpCode>, byte: u8) -> Option<OpCode>
    decreases entries.len(),
{
    if entries.len() == 0 {
        None
    } else if entries[0].byte == byte {
        Some(entries[0])
    } else {
        find_opcode(entries.drop_first(), byte)
    }
}

/// Every instruction of the table is one to three bytes long.
pub open spec fn lengths_valid(entries: Seq<OpCode>) -> bool {
    forall|i: int| 0 <= i < entries.len() ==> 1 <= #[trigger] entries[i].len <= 3
}

/// The opcodes this core implements.
pub open spec fn standard_entries() -> Seq<OpCode> {
    seq![
            OpCode { byte: 0xA9, name: OpCodeName::LDA, len: 2, cycles: 2, mode: AddressingMode::Immediate },
            OpCode { byte: 0xA5, name: OpCodeName::LDA, len: 2, cycles: 3, mode: AddressingMode::ZeroPage },
            OpCode { byte: 0xB5, name: OpCodeName::LDA, len: 2, cycles: 4, mode: AddressingMode::ZeroPage_X },
            OpCode { byte: 0xAD, name: OpCodeName::LDA, len: 3, cycles: 4, mode: AddressingMode::Absolute },
            OpCode { byte: 0xBD, name: OpCodeName::LDA, len: 3, cycles: 4, mode: AddressingMode::Absolute_X },
            OpCode { byte: 0xB9, name: OpCodeName::LDA, len: 3, cycles: 4, mode: AddressingMode::Absolute_Y },
            OpCode { byte: 0xA1, name: OpCodeName::LDA, len: 2, cycles: 6, mode: AddressingMode::Indirect_X },
            OpCode { byte: 0xB1, name: OpCodeName::LDA, len: 2, cycles: 5, mode: AddressingMode::Indirect_Y },
            OpCode { byte: 0xA2, name: OpCodeName::LDX, len: 2, cycles: 2, mode: AddressingMode::Immediate },
            OpCode { byte: 0xA6, name: OpCodeName::LDX, len: 2, cycles: 3, mode: AddressingMode::ZeroPage },
            OpCode { byte: 0xB6, name: OpCodeName::LDX, len: 2, cycles: 4, mode: AddressingMode::ZeroPage_Y },
            OpCode { byte: 0xAE, name: OpCodeName::LDX, len: 3, cycles: 4, mode: AddressingMode::Absolute },
            OpCode { byte: 0xBE, name: OpCodeName::LDX, len: 3, cycles: 4, mode: AddressingMode::Absolute_Y },
            OpCode { byte: 0x85, name: OpCodeName::STA, len: 2, cycles: 3, mode: AddressingMode::ZeroPage },
            OpCode { byte: 0x95, name: OpCodeName::STA, len: 2, cycles: 4, mode: AddressingMode::ZeroPage_X },
            OpCode { byte: 0x8D, name: OpCodeName::STA, len: 3, cycles: 4, mode: AddressingMode::Absolute },
            OpCode { byte: 0x9D, name: OpCodeName::STA, len: 3, cycles: 5, mode: AddressingMode::Absolute_X },
            OpCode { byte: 0x99, name: OpCodeName::STA, len: 3, cycles: 5, mode: AddressingMode::Absolute_Y },
            OpCode { byte: 0x81, name: OpCodeName::STA, len: 2, cycles: 6, mode: AddressingMode::Indirect_X },
            OpCode { byte: 0x91, name: OpCodeName::STA, len: 2, cycles: 6, mode: AddressingMode::Indirect_Y },
            OpCode { byte: 0xAA, name: OpCodeName::TAX, len: 1, cycles: 2, mode: AddressingMode::NonAddressing },
            OpCode { byte: 0xE8, name: OpCodeName::INX, len: 1, cycles: 2, mode: AddressingMode::NonAddressing },
            OpCode { byte: 0x00, name: OpCodeName::BRK, len: 1, cycles: 7, mode: AddressingMode::NonAddressing },
            OpCode { byte: 0x48, name: OpCodeName::PHA, len: 1, cycles: 3, mode: AddressingMode::NonAddressing },
            OpCode { byte: 0x08, name: OpCodeName::PHP, len: 1, cycles: 3, mode: AddressingMode::NonAddressing },
            OpCode { byte: 0x20, name: OpCodeName::JSR, len: 3, cycles: 6, mode: AddressingMode::Absolute },
            OpCode { byte: 0x60, name: OpCodeName::RTS, len: 1, cycles: 6, mode: AddressingMode::NonAddressing },
            OpCode { byte: 0x68, name: OpCodeName::PLA, len: 1, cycles: 4, mode: AddressingMode::NonAddressing },
            OpCode { byte: 0x28, name: OpCodeName::PLP, len: 1, cycles: 4, mode: AddressingMode::NonAddressing },
            OpCode { byte: 0x40, name: OpCodeName::RTI, len: 1, cycles: 6, mode: AddressingMode::NonAddressing },
            OpCode { byte: 0x69, name: OpCodeName::ADC, len: 2, cycles: 2, mode: AddressingMode::Immediate },
            OpCode { byte: 0x65, name: OpCodeName::ADC, len: 2, cycles: 3, mode: AddressingMode::ZeroPage },
            OpCode { byte: 0x75, name: OpCodeName::ADC, len: 2, cycles: 4, mode: AddressingMode::ZeroPage_X },
            OpCode { byte: 0x6D, name: OpCodeName::ADC, len: 3, cycles: 4, mode: AddressingMode::Absolute },
            OpCode { byte: 0x7D, name: OpCodeName::ADC, len: 3, cycles: 4, mode: AddressingMode::Absolute_X },
            OpCode { byte: 0x79, name: OpCodeName::ADC, len: 3, cycles: 4, mode: AddressingMode::Absolute_Y },
            OpCode { byte: 0x61, name: OpCodeName::ADC, len: 2, cycles: 6, mode: AddressingMode::Indirect_X },
            OpCode { byte: 0x71, name: OpCodeName::ADC, len: 2, cycles: 5, mode: AddressingMode::Indirect_Y },
            OpCode { byte: 0x29, name: OpCodeName::AND, len: 2, cycles: 2, mode: AddressingMode::Immediate },
            OpCode { byte: 0x25, name: OpCodeName::AND, len: 2, cycles: 3, mode: AddressingMode::ZeroPage },
            OpCode { byte: 0x35, name: OpCodeName::AND, len: 2, cycles: 4, mode: AddressingMode::ZeroPage_X },
            OpCode { byte: 0x2D, name: OpCodeName::AND, len: 3, cycles: 4, mode: AddressingMode::Absolute },
            OpCode { byte: 0x3D, name: OpCodeName::AND, len: 3, cycles: 4, mode: AddressingMode::Absolute_X },
            OpCode { byte: 0x39, name: OpCodeName::AND, len: 3, cycles: 4, mode: AddressingMode::Absolute_Y },
            OpCode { byte: 0x21, name: OpCodeName::AND, len: 2, cycles: 6, mode: AddressingMode::Indirect_X },
            OpCode { byte: 0x31, name: OpCodeName::AND, len: 2, cycles: 5, mode: AddressingMode::Indirect_Y },
            OpCode { byte: 0x0A, name: OpCodeName::ASL, len: 1, cycles: 2, mode: AddressingMode::NonAddressing },
            OpCode { byte: 0x06, name: OpCodeName::ASL, len: 2, cycles: 5, mode: AddressingMode::ZeroPage },
            OpCode { byte: 0x16, name: OpCodeName::ASL, len: 2, cycles: 6, mode: AddressingMode::ZeroPage_X },
            OpCode { byte: 0x0E, name: OpCodeName::ASL, len: 3, cycles: 6, mode: AddressingMode::Absolute },
            OpCode { byte: 0x1E, name: OpCodeName::ASL, len: 3, cycles: 7, mode: AddressingMode::Absolute_X },
            OpCode { byte: 0x90, name: OpCodeName::BCC, len: 2, cycles: 2, mode: AddressingMode::NonAddressing },
            OpCode { byte: 0xB0, name: OpCodeName::BCS, len: 2, cycles: 2, mode: AddressingMode::NonAddressing },
            OpCode { byte: 0xF0, name: OpCodeName::BEQ, len: 2, cycles: 2, mode: AddressingMode::NonAddressing },
            OpCode { byte: 0x2C, name: OpCodeName::BIT, len: 3, cycles: 4, mode: AddressingMode::Absolute },
            OpCode { byte: 0x89, name: OpCodeName::BIT, len: 2, cycles: 3, mode: AddressingMode::Immediate },
            OpCode { byte: 0x24, name: OpCodeName::BIT, len: 2, cycles: 3, mode: AddressingMode::ZeroPage },
            OpCode { byte: 0x30, name: OpCodeName::BMI, len: 2, cycles: 2, mode: AddressingMode::NonAddressing },
            OpCode { byte: 0xD0, name: OpCodeName::BNE, len: 2, cycles: 2, mode: AddressingMode::NonAddressing },
            OpCode { byte: 0x10, name: OpCodeName::BPL, len: 2, cycles: 2, mode: AddressingMode::NonAddressing },
            OpCode { byte: 0x50, name: OpCodeName::BVC, len: 2, cycles: 2, mode: AddressingMode::NonAddressing },
            OpCode { byte: 0x70, name: OpCodeName::BVS, len: 2, cycles: 2, mode: AddressingMode::NonAddressing },
            OpCode { byte: 0x18, name: OpCodeName::CLC, len: 1, cycles: 2, mode: AddressingMode::NonAddressing },
            OpCode { byte: 0xD8, name: OpCodeName::CLD, len: 1, cycles: 2, mode: AddressingMode::NonAddressing },
            OpCode { byte: 0x58, name: OpCodeName::CLI, len: 1, cycles: 2, mode: AddressingMode::NonAddressing },
            OpCode { byte: 0xB8, name: OpCodeName::CLV, len: 1, cycles: 2, mode: AddressingMode::NonAddressing },
            OpCode { byte: 0xC9, name: OpCodeName::CMP, len: 2, cycles: 2, mode: AddressingMode::Immediate },
            OpCode { byte: 0xC5, name: OpCodeName::CMP, len: 2, cycles: 3, mode: AddressingMode::ZeroPage },
            OpCode { byte: 0xD5, name: OpCodeName::CMP, len: 2, cycles: 4, mode: AddressingMode::ZeroPage_X },
            OpCode { byte: 0xCD, name: OpCodeName::CMP, len: 3, cycles: 4, mode: AddressingMode::Absolute },
            OpCode { byte: 0xDD, name: OpCodeName::CMP, len: 3, cycles: 4, mode: AddressingMode::Absolute_X },
            OpCode { byte: 0xD9, name: OpCodeName::CMP, len: 3, cycles: 4, mode: AddressingMode::Absolute_Y },
            OpCode { byte: 0xC1, name: OpCodeName::CMP, len: 2, cycles: 6, mode: AddressingMode::Indirect_X },
            OpCode { byte: 0xD1, name: OpCodeName::CMP, len: 2, cycles: 5, mode: AddressingMode::Indirect_Y },
            OpCode { byte: 0xE0, name: OpCodeName::CPX, len: 2, cycles: 2, mode: AddressingMode::Immediate },
            OpCode { byte: 0xE4, name: OpCodeName::CPX, len: 2, cycles: 3, mode: AddressingMode::ZeroPage },
            OpCode { byte: 0xEC, name: OpCodeName::CPX, len: 3, cycles: 4, mode: AddressingMode::Absolute },
        ]
}

/// An immutable mapping from opcode byte to its descriptor, built once and
/// handed to the execution engine.
pub struct OpCodeTable {
    entries: Vec<OpCode>,
}

impl View for OpCodeTable {
    type V = Seq<OpCode>;

    closed spec fn view(&self) -> Seq<OpCode> {
        self.entries@
    }
}

impl OpCodeTable {
    /// Every instruction a table describes is one to three bytes long.
    #[verifier::type_invariant]
    pub open spec fn inv(&self) -> bool {
        lengths_valid(self@)
    }

    /// A table of the given descriptors, if each instruction is one to three
    /// bytes long. Where two share a byte, the earlier one is used.
    pub fn from_entries(entries: Vec<OpCode>) -> (r: Option<OpCodeTable>)
        ensures
            r is Some <==> lengths_valid(entries@),
            r matches Some(t) ==> t@ == entries@,
    {
        let mut i: usize = 0;
        while i < entries.len()
            invariant
                i <= entries@.len(),
                lengths_valid(entries@.take(i as int)),
            decreases entries@.len() - i,
        {
            let len = entries[i].len;
            if len < 1 || len > 3 {
                assert(!(1 <= entries@[i as int].len <= 3));
                return None;
            }
            assert(entries@.take(i + 1) =~= entries@.take(i as int).push(entries@[i as int]));
            i = i + 1;
        }
        assert(entries@.take(i as int) =~= entries@);
        Some(OpCodeTable { entries })
    }

    /// The table of every opcode this core implements.
    pub fn standard() -> (r: OpCodeTable)
        ensures
            r@ == standard_entries(),
            lengths_valid(r@),
    {
        let entries = vec![
            OpCode { byte: 0xA9, name: OpCodeName::LDA, len: 2, cycles: 2, mode: AddressingMode::Immediate },
            OpCode { byte: 0xA5, name: OpCodeName::LDA, len: 2, cycles: 3, mode: AddressingMode::ZeroPage },
            OpCode { byte: 0xB5, name: OpCodeName::LDA, len: 2, cycles: 4, mode: AddressingMode::ZeroPage_X },
            OpCode { byte: 0xAD, name: OpCodeName::LDA, len: 3, cycles: 4, mode: AddressingMode::Absolute },
            OpCode { byte: 0xBD, name: OpCodeName::LDA, len: 3, cycles: 4, mode: AddressingMode::Absolute_X },
            OpCode { byte: 0xB9, name: OpCodeName::LDA, len: 3, cycles: 4, mode: AddressingMode::Absolute_Y },
            OpCode { byte: 0xA1, name: OpCodeName::LDA, len: 2, cycles: 6, mode: AddressingMode::Indirect_X },
            OpCode { byte: 0xB1, name: OpCodeName::LDA, len: 2, cycles: 5, mode: AddressingMode::Indirect_Y },
            OpCode { byte: 0xA2, name: OpCodeName::LDX, len: 2, cycles: 2, mode: AddressingMode::Immediate },
            OpCode { byte: 0xA6, name: OpCodeName::LDX, len: 2, cycles: 3, mode: AddressingMode::ZeroPage },
            OpCode { byte: 0xB6, name: OpCodeName::LDX, len: 2, cycles: 4, mode: AddressingMode::ZeroPage_Y },
            OpCode { byte: 0xAE, name: OpCodeName::LDX, len: 3, cycles: 4, mode: AddressingMode::Absolute },
            OpCode { byte: 0xBE, name: OpCodeName::LDX, len: 3, cycles: 4, mode: AddressingMode::Absolute_Y },
            OpCode { byte: 0x85, name: OpCodeName::STA, len: 2, cycles: 3, mode: AddressingMode::ZeroPage },
            OpCode { byte: 0x95, name: OpCodeName::STA, len: 2, cycles: 4, mode: AddressingMode::ZeroPage_X },
            OpCode { byte: 0x8D, name: OpCodeName::STA, len: 3, cycles: 4, mode: AddressingMode::Absolute },
            OpCode { byte: 0x9D, name: OpCodeName::STA, len: 3, cycles: 5, mode: AddressingMode::Absolute_X },
            OpCode { byte: 0x99, name: OpCodeName::STA, len: 3, cycles: 5, mode: AddressingMode::Absolute_Y },
            OpCode { byte: 0x81, name: OpCodeName::STA, len: 2, cycles: 6, mode: AddressingMode::Indirect_X },
            OpCode { byte: 0x91, name: OpCodeName::STA, len: 2, cycles: 6, mode: AddressingMode::Indirect_Y },
            OpCode { byte: 0xAA, name: OpCodeName::TAX, len: 1, cycles: 2, mode: AddressingMode::NonAddressing },
            OpCode { byte: 0xE8, name: OpCodeName::INX, len: 1, cycles: 2, mode: AddressingMode::NonAddressing },
            OpCode { byte: 0x00, name: OpCodeName::BRK, len: 1, cycles: 7, mode: AddressingMode::NonAddressing },
            OpCode { byte: 0x48, name: OpCodeName::PHA, len: 1, cycles: 3, mode: AddressingMode::NonAddressing },
            OpCode { byte: 0x08, name: OpCodeName::PHP, len: 1, cycles: 3, mode: AddressingMode::NonAddressing },
            OpCode { byte: 0x20, name: OpCodeName::JSR, len: 3, cycles: 6, mode: AddressingMode::Absolute },
            OpCode { byte: 0x60, name: OpCodeName::RTS, len: 1, cycles: 6, mode: AddressingMode::NonAddressing },
            OpCode { byte: 0x68, name: OpCodeName::PLA, len: 1, cycles: 4, mode: AddressingMode::NonAddressing },
            OpCode { byte: 0x28, name: OpCodeName::PLP, len: 1, cycles: 4, mode: AddressingMode::NonAddressing },
            OpCode { byte: 0x40, name: OpCodeName::RTI, len: 1, cycles: 6, mode: AddressingMode::NonAddressing },
            OpCode { byte: 0x69, name: OpCodeName::ADC, len: 2, cycles: 2, mode: AddressingMode::Immediate },
            OpCode { byte: 0x65, name: OpCodeName::ADC, len: 2, cycles: 3, mode: AddressingMode::ZeroPage },
            OpCode { byte: 0x75, name: OpCodeName::ADC, len: 2, cycles: 4, mode: AddressingMode::ZeroPage_X },
            OpCode { byte: 0x6D, name: OpCodeName::ADC, len: 3, cycles: 4, mode: AddressingMode::Absolute },
            OpCode { byte: 0x7D, name: OpCodeName::ADC, len: 3, cycles: 4, mode: AddressingMode::Absolute_X },
            OpCode { byte: 0x79, name: OpCodeName::ADC, len: 3, cycles: 4, mode: AddressingMode::Absolute_Y },
            OpCode { byte: 0x61, name: OpCodeName::ADC, len: 2, cycles: 6, mode: AddressingMode::Indirect_X },
            OpCode { byte: 0x71, name: OpCodeName::ADC, len: 2, cycles: 5, mode: AddressingMode::Indirect_Y },
            OpCode { byte: 0x29, name: OpCodeName::AND, len: 2, cycles: 2, mode: AddressingMode::Immediate },
            OpCode { byte: 0x25, name: OpCodeName::AND, len: 2, cycles: 3, mode: AddressingMode::ZeroPage },
            OpCode { byte: 0x35, name: OpCodeName::AND, len: 2, cycles: 4, mode: AddressingMode::ZeroPage_X },
            OpCode { byte: 0x2D, name: OpCodeName::AND, len: 3, cycles: 4, mode: AddressingMode::Absolute },
            OpCode { byte: 0x3D, name: OpCodeName::AND, len: 3, cycles: 4, mode: AddressingMode::Absolute_X },
            OpCode { byte: 0x39, name: OpCodeName::AND, len: 3, cycles: 4, mode: AddressingMode::Absolute_Y },
            OpCode { byte: 0x21, name: OpCodeName::AND, len: 2, cycles: 6, mode: AddressingMode::Indirect_X },
            OpCode { byte: 0x31, name: OpCodeName::AND, len: 2, cycles: 5, mode: AddressingMode::Indirect_Y },
            OpCode { byte: 0x0A, name: OpCodeName::ASL, len: 1, cycles: 2, mode: AddressingMode::NonAddressing },
            OpCode { byte: 0x06, name: OpCodeName::ASL, len: 2, cycles: 5, mode: AddressingMode::ZeroPage },
            OpCode { byte: 0x16, name: OpCodeName::ASL, len: 2, cycles: 6, mode: AddressingMode::ZeroPage_X },
            OpCode { byte: 0x0E, name: OpCodeName::ASL, len: 3, cycles: 6, mode: AddressingMode::Absolute },
            OpCode { byte: 0x1E, name: OpCodeName::ASL, len: 3, cycles: 7, mode: AddressingMode::Absolute_X },
            OpCode { byte: 0x90, name: OpCodeName::BCC, len: 2, cycles: 2, mode: AddressingMode::NonAddressing },
            OpCode { byte: 0xB0, name: OpCodeName::BCS, len: 2, cycles: 2, mode: AddressingMode::NonAddressing },
            OpCode { byte: 0xF0, name: OpCodeName::BEQ, len: 2, cycles: 2, mode: AddressingMode::NonAddressing },
            OpCode { byte: 0x2C, name: OpCodeName::BIT, len: 3, cycles: 4, mode: AddressingMode::Absolute },
            OpCode { byte: 0x89, name: OpCodeName::BIT, len: 2, cycles: 3, mode: AddressingMode::Immediate },
            OpCode { byte: 0x24, name: OpCodeName::BIT, len: 2, cycles: 3, mode: AddressingMode::ZeroPage },
            OpCode { byte: 0x30, name: OpCodeName::BMI, len: 2, cycles: 2, mode: AddressingMode::NonAddressing },
            OpCode { byte: 0xD0, name: OpCodeName::BNE, len: 2, cycles: 2, mode: AddressingMode::NonAddressing },
            OpCode { byte: 0x10, name: OpCodeName::BPL, len: 2, cycles: 2, mode: AddressingMode::NonAddressing },
            OpCode { byte: 0x50, name: OpCodeName::BVC, len: 2, cycles: 2, mode: AddressingMode::NonAddressing },
            OpCode { byte: 0x70, name: OpCodeName::BVS, len: 2, cycles: 2, mode: AddressingMode::NonAddressing },
            OpCode { byte: 0x18, name: OpCodeName::CLC, len: 1, cycles: 2, mode: AddressingMode::NonAddressing },
            OpCode { byte: 0xD8, name: OpCodeName::CLD, len: 1, cycles: 2, mode: AddressingMode::NonAddressing },
            OpCode { byte: 0x58, name: OpCodeName::CLI, len: 1, cycles: 2, mode: AddressingMode::NonAddressing },
            OpCode { byte: 0xB8, name: OpCodeName::CLV, len: 1, cycles: 2, mode: AddressingMode::NonAddressing },
            OpCode { byte: 0xC9, name: OpCodeName::CMP, len: 2, cycles: 2, mode: AddressingMode::Immediate },
            OpCode { byte: 0xC5, name: OpCodeName::CMP, len: 2, cycles: 3, mode: AddressingMode::ZeroPage },
            OpCode { byte: 0xD5, name: OpCodeName::CMP, len: 2, cycles: 4, mode: AddressingMode::ZeroPage_X },
            OpCode { byte: 0xCD, name: OpCodeName::CMP, len: 3, cycles: 4, mode: AddressingMode::Absolute },
            OpCode { byte: 0xDD, name: OpCodeName::CMP, len: 3, cycles: 4, mode: AddressingMode::Absolute_X },
            OpCode { byte: 0xD9, name: OpCodeName::CMP, len: 3, cycles: 4, mode: AddressingMode::Absolute_Y },
            OpCode { byte: 0xC1, name: OpCodeName::CMP, len: 2, cycles: 6, mode: AddressingMode::Indirect_X },
            OpCode { byte: 0xD1, name: OpCodeName::CMP, len: 2, cycles: 5, mode: AddressingMode::Indirect_Y },
            OpCode { byte: 0xE0, name: OpCodeName::CPX, len: 2, cycles: 2, mode: AddressingMode::Immediate },
            OpCode { byte: 0xE4, name: OpCodeName::CPX, len: 2, cycles: 3, mode: AddressingMode::ZeroPage },
            OpCode { byte: 0xEC, name: OpCodeName::CPX, len: 3, cycles: 4, mode: AddressingMode::Absolute },
        ];
        let r = OpCodeTable { entries };
        assert(r@ =~= standard_entries());
        r
    }

    /// The descriptor of `byte`, if the table has one.
    pub fn lookup(&self, byte: u8) -> (r: Option<OpCode>)
        ensures
            r == find_opcode(self@, byte),
            r matches Some(op) ==> op.byte == byte && self@.contains(op),
    {
        let mut i: usize = 0;
        assert(self@.subrange(0, self@.len() as int) =~= self@);
        while i < self.entries.len()
            invariant
                i <= self@.len(),
                find_opcode(self@, byte) == find_opcode(self@.subrange(i as int, self@.len() as int), byte),
            decreases self@.len() - i,
        {
            let e = self.entries[i];
            let ghost rest = self@.subrange(i as int, self@.len() as int);
            assert(rest.drop_first() =~= self@.subrange(i + 1, self@.len() as int));
            if e.byte == byte {
                return Some(e);
            }
            i = i + 1;
        }
        assert(self@.subrange(i as int, self@.len() as int).len() == 0);
        None
    }
}

} // verus!
