//! The mathematical model of the machine: its state as plain values and
//! one spec function per rule of execution. The executable core in `cpu` is
//! proved to follow these functions step by step.

use vstd::prelude::*;

use crate::opcode::{find_opcode, AddressingMode, OpCode, OpCodeName};
use crate::status::{has_flag, lemma_with_flag, with_flag, Flag};

verus! {

/// Size of the address space: every 16-bit address names a byte.
pub const MEMORY_SIZE: usize = 0x10000;

/// Address of the stack slot for stack pointer 0; slot `sp` lies `sp` bytes
/// below it, so the stack occupies page 1.
pub const STACK_ORIGIN: u16 = 0x01FF;

/// Where `load` places a program.
pub const PROGRAM_ORIGIN: u16 = 0x8000;

/// Where the little-endian start address read by `reset` is kept.
pub const RESET_VECTOR: u16 = 0xFFFC;

/// The machine as plain values.
pub struct CpuState {
    pub a: u8,
    pub x: u8,
    pub y: u8,
    pub status: u8,
    pub sp: u8,
    pub pc: u16,
    pub mem: Seq<u8>,
}

/// Why execution stopped without reaching a halt.
#[derive(Debug, Clone, Copy, PartialEq, Eq, Structural)]
pub enum ExecError {
    /// The fetched byte has no descriptor in the opcode table.
    UnknownOpcode(u8),
    /// The instruction needs an operand address its mode cannot give, or a
    /// shift was asked for in a mode it does not support.
    IllegalAddressing { opcode: u8, mode: AddressingMode },
    /// `run` gave up after `u64::MAX` instructions without a halt.
    StepLimit,
}

/// What the engine does after an instruction that did not fail.
#[derive(Debug, Clone, Copy, PartialEq, Eq, Structural)]
pub enum Flow {
    Next,
    Halt,
}

pub open spec fn read(mem: Seq<u8>, addr: u16) -> u8 {
    mem[addr as int]
}

/// The 16-bit value with low byte `lo` and high byte `hi`.
pub open spec fn word(lo: u8, hi: u8) -> u16 {
    (lo as int + 256 * hi as int) as u16
}

/// Little-endian: the low byte at `addr`, the high byte at `addr + 1`.
pub open spec fn read16(mem: Seq<u8>, addr: u16) -> u16 {
    word(read(mem, addr), read(mem, addr.wrapping_add(1)))
}

pub open spec fn write16(mem: Seq<u8>, addr: u16, v: u16) -> Seq<u8> {
    mem.update(addr as int, (v % 256) as u8).update(addr.wrapping_add(1) as int, (v / 256) as u8)
}

/// The pointer kept in zero page at `ptr`, its high byte wrapping within
/// zero page.
pub open spec fn zero_page_pointer(mem: Seq<u8>, ptr: u8) -> u16 {
    word(read(mem, ptr as u16), read(mem, ptr.wrapping_add(1) as u16))
}

/// `mem` with `prog` copied in from address `origin` on.
pub open spec fn place(mem: Seq<u8>, origin: u16, prog: Seq<u8>) -> Seq<u8> {
    Seq::new(
        mem.len(),
        |i: int|
            if origin <= i < origin + prog.len() {
                prog[i - origin]
            } else {
                mem[i]
            },
    )
}

/// The program copied to its origin and that origin written to the reset
/// vector; registers untouched.
pub open spec fn load(s: CpuState, prog: Seq<u8>) -> CpuState {
    CpuState {
        mem: write16(place(s.mem, PROGRAM_ORIGIN, prog), RESET_VECTOR, PROGRAM_ORIGIN),
        ..s
    }
}

/// Registers, flags and stack pointer zeroed; `pc` read from the reset
/// vector.
pub open spec fn reset(s: CpuState) -> CpuState {
    CpuState { a: 0, x: 0, y: 0, status: 0, sp: 0, pc: read16(s.mem, RESET_VECTOR), mem: s.mem }
}

/// The effective address of the operand, `pc` standing at the first operand
/// byte; `None` for an instruction without a memory operand.
///
/// Indirect,Y is post-indexed: the pointer is read from zero page and `y`
/// is added to the 16-bit address it holds.
pub open spec fn operand_address(s: CpuState, mode: AddressingMode) -> Option<u16> {
    match mode {
        AddressingMode::Immediate => Some(s.pc),
        AddressingMode::ZeroPage => Some(read(s.mem, s.pc) as u16),
        AddressingMode::ZeroPage_X => Some(read(s.mem, s.pc).wrapping_add(s.x) as u16),
        AddressingMode::ZeroPage_Y => Some(read(s.mem, s.pc).wrapping_add(s.y) as u16),
        AddressingMode::Absolute => Some(read16(s.mem, s.pc)),
        AddressingMode::Absolute_X => Some(read16(s.mem, s.pc).wrapping_add(s.x as u16)),
        AddressingMode::Absolute_Y => Some(read16(s.mem, s.pc).wrapping_add(s.y as u16)),
        AddressingMode::Indirect_X => Some(
            zero_page_pointer(s.mem, read(s.mem, s.pc).wrapping_add(s.x)),
        ),
        AddressingMode::Indirect_Y => Some(
            zero_page_pointer(s.mem, read(s.mem, s.pc)).wrapping_add(s.y as u16),
        ),
        AddressingMode::NonAddressing => None,
    }
}

/// The memory address of stack slot `sp`.
pub open spec fn stack_address(sp: u8) -> u16 {
    (STACK_ORIGIN - sp) as u16
}

/// Write `v` at the current slot, then advance the stack pointer.
pub open spec fn push(s: CpuState, v: u8) -> CpuState {
    CpuState { mem: s.mem.update(stack_address(s.sp) as int, v), sp: s.sp.wrapping_add(1), ..s }
}

/// Retreat the stack pointer, then read the slot it names.
pub open spec fn pop(s: CpuState) -> (CpuState, u8) {
    let sp = s.sp.wrapping_sub(1);
    (CpuState { sp, ..s }, read(s.mem, stack_address(sp)))
}

/// `status` with Zero and Negative recomputed from the result `v`.
pub open spec fn zn(status: u8, v: u8) -> u8 {
    with_flag(with_flag(status, Flag::Zero, v == 0), Flag::Negative, v & 0x80 != 0)
}

/// `d` read as a two's-complement displacement.
pub open spec fn signed_byte(d: u8) -> i16 {
    if d < 128 {
        d as i16
    } else {
        (d as int - 256) as i16
    }
}

pub open spec fn lda(s: CpuState, addr: u16) -> CpuState {
    let v = read(s.mem, addr);
    CpuState { a: v, status: zn(s.status, v), ..s }
}

pub open spec fn ldx(s: CpuState, addr: u16) -> CpuState {
    let v = read(s.mem, addr);
    CpuState { x: v, status: zn(s.status, v), ..s }
}

pub open spec fn sta(s: CpuState, addr: u16) -> CpuState {
    CpuState { mem: s.mem.update(addr as int, s.a), ..s }
}

pub open spec fn tax(s: CpuState) -> CpuState {
    CpuState { x: s.a, status: zn(s.status, s.a), ..s }
}

pub open spec fn inx(s: CpuState) -> CpuState {
    let v = s.x.wrapping_add(1);
    CpuState { x: v, status: zn(s.status, v), ..s }
}

pub open spec fn pla(s: CpuState) -> CpuState {
    let (t, v) = pop(s);
    CpuState { a: v, status: zn(t.status, v), ..t }
}

pub open spec fn plp(s: CpuState) -> CpuState {
    let (t, v) = pop(s);
    CpuState { status: v, ..t }
}

/// Push the address of the call's last operand byte, high byte first, and
/// jump to `target`.
pub open spec fn jsr(s: CpuState, target: u16) -> CpuState {
    let ret = s.pc.wrapping_add(1);
    let t = push(push(s, (ret / 256) as u8), (ret % 256) as u8);
    CpuState { pc: target, ..t }
}

/// Pop the saved address, low byte first, and resume one byte past it.
pub open spec fn rts(s: CpuState) -> CpuState {
    let (t1, lo) = pop(s);
    let (t2, hi) = pop(t1);
    CpuState { pc: word(lo, hi).wrapping_add(1), ..t2 }
}

/// Pop the status, then the address to resume at, with no adjustment.
pub open spec fn rti(s: CpuState) -> CpuState {
    let (t1, st) = pop(s);
    let (t2, lo) = pop(t1);
    let (t3, hi) = pop(t2);
    CpuState { status: st, pc: word(lo, hi), ..t3 }
}

pub open spec fn adc(s: CpuState, addr: u16) -> CpuState {
    let m = read(s.mem, addr);
    let sum = s.a as int + m as int + if has_flag(s.status, Flag::Carry) {
        1int
    } else {
        0int
    };
    let r = (sum % 256) as u8;
    let st = with_flag(zn(s.status, r), Flag::Carry, sum > 255);
    CpuState {
        a: r,
        status: with_flag(st, Flag::Overflow, (s.a ^ r) & (m ^ r) & 0x80 != 0),
        ..s
    }
}

pub open spec fn and(s: CpuState, addr: u16) -> CpuState {
    let v = s.a & read(s.mem, addr);
    CpuState { a: v, status: zn(s.status, v), ..s }
}

/// `v` shifted left one bit: the low eight bits of the nine-bit result, and
/// whether its ninth bit is set.
pub open spec fn shifted(v: u8) -> (u8, bool) {
    let wide = v as int * 2;
    ((wide % 256) as u8, wide > 255)
}

pub open spec fn asl_accumulator(s: CpuState) -> CpuState {
    let (v, carry) = shifted(s.a);
    CpuState { a: v, status: zn(with_flag(s.status, Flag::Carry, carry), v), ..s }
}

pub open spec fn asl_memory(s: CpuState, addr: u16) -> CpuState {
    let (v, carry) = shifted(read(s.mem, addr));
    CpuState {
        mem: s.mem.update(addr as int, v),
        status: zn(with_flag(s.status, Flag::Carry, carry), v),
        ..s
    }
}

/// Zero from `a & m`; Negative and Overflow from bits 7 and 6 of `m`.
pub open spec fn bit(s: CpuState, addr: u16) -> CpuState {
    let m = read(s.mem, addr);
    let st = with_flag(s.status, Flag::Zero, s.a & m == 0);
    let st = with_flag(st, Flag::Negative, m & 0x80 != 0);
    CpuState { status: with_flag(st, Flag::Overflow, m & 0x40 != 0), ..s }
}

/// When `taken`, move `pc` past the whole instruction of `len` bytes and add
/// the signed displacement found at `pc`.
pub open spec fn branch(s: CpuState, taken: bool, len: usize) -> CpuState {
    if taken {
        let d = signed_byte(read(s.mem, s.pc));
        CpuState { pc: s.pc.wrapping_add((len - 1) as u16).wrapping_add_signed(d), ..s }
    } else {
        s
    }
}

pub open spec fn clear(s: CpuState, f: Flag) -> CpuState {
    CpuState { status: with_flag(s.status, f, false), ..s }
}

/// Zero iff `reg == m`, Carry iff `reg >= m` unsigned, Negative from bit 7
/// of `reg - m` taken modulo 256.
pub open spec fn compare(s: CpuState, reg: u8, addr: u16) -> CpuState {
    let m = read(s.mem, addr);
    let st = with_flag(s.status, Flag::Zero, reg == m);
    let st = with_flag(st, Flag::Carry, reg >= m);
    CpuState { status: with_flag(st, Flag::Negative, reg.wrapping_sub(m) & 0x80 != 0), ..s }
}

/// Whether the branch `name` is taken under `status`; false for any other
/// operation.
pub open spec fn branch_taken(name: OpCodeName, status: u8) -> bool {
    match name {
        OpCodeName::BCC => !has_flag(status, Flag::Carry),
        OpCodeName::BCS => has_flag(status, Flag::Carry),
        OpCodeName::BEQ => has_flag(status, Flag::Zero),
        OpCodeName::BNE => !has_flag(status, Flag::Zero),
        OpCodeName::BMI => has_flag(status, Flag::Negative),
        OpCodeName::BPL => !has_flag(status, Flag::Negative),
        OpCodeName::BVS => has_flag(status, Flag::Overflow),
        OpCodeName::BVC => !has_flag(status, Flag::Overflow),
        _ => false,
    }
}

/// The operations that read or write memory at a resolved operand address,
/// applied at `addr`.
pub open spec fn with_operand(s: CpuState, name: OpCodeName, addr: u16) -> CpuState {
    match name {
        OpCodeName::LDA => lda(s, addr),
        OpCodeName::LDX => ldx(s, addr),
        OpCodeName::STA => sta(s, addr),
        OpCodeName::JSR => jsr(s, addr),
        OpCodeName::ADC => adc(s, addr),
        OpCodeName::AND => and(s, addr),
        OpCodeName::BIT => bit(s, addr),
        OpCodeName::CMP => compare(s, s.a, addr),
        OpCodeName::CPX => compare(s, s.x, addr),
        _ => s,
    }
}

/// One instruction's handler, `pc` standing at its first operand byte.
pub open spec fn execute(s: CpuState, op: OpCode) -> Result<CpuState, ExecError> {
    let illegal = Err(ExecError::IllegalAddressing { opcode: op.byte, mode: op.mode });
    match op.name {
        OpCodeName::BRK => Ok(s),
        OpCodeName::TAX => Ok(tax(s)),
        OpCodeName::INX => Ok(inx(s)),
        OpCodeName::PHA => Ok(push(s, s.a)),
        OpCodeName::PHP => Ok(push(s, s.status)),
        OpCodeName::PLA => Ok(pla(s)),
        OpCodeName::PLP => Ok(plp(s)),
        OpCodeName::RTS => Ok(rts(s)),
        OpCodeName::RTI => Ok(rti(s)),
        OpCodeName::CLC => Ok(clear(s, Flag::Carry)),
        OpCodeName::CLD => Ok(clear(s, Flag::Decimal)),
        OpCodeName::CLI => Ok(clear(s, Flag::InterruptDisable)),
        OpCodeName::CLV => Ok(clear(s, Flag::Overflow)),
        OpCodeName::BCC | OpCodeName::BCS | OpCodeName::BEQ | OpCodeName::BNE
        | OpCodeName::BMI | OpCodeName::BPL | OpCodeName::BVS | OpCodeName::BVC => Ok(
            branch(s, branch_taken(op.name, s.status), op.len),
        ),
        OpCodeName::ASL => match op.mode {
            AddressingMode::NonAddressing => Ok(asl_accumulator(s)),
            AddressingMode::ZeroPage | AddressingMode::ZeroPage_X | AddressingMode::Absolute
            | AddressingMode::Absolute_X => Ok(asl_memory(s, operand_address(s, op.mode).unwrap())),
            _ => illegal,
        },
        _ => match operand_address(s, op.mode) {
            Some(addr) => Ok(with_operand(s, op.name, addr)),
            None => illegal,
        },
    }
}

/// Fetch, decode and execute one instruction with the opcode table
/// `table`. The opcode's byte is consumed first; a handler that leaves `pc`
/// where it found it is followed by a skip over the operand bytes; BRK
/// halts.
pub open spec fn step(s: CpuState, table: Seq<OpCode>) -> (CpuState, Result<Flow, ExecError>) {
    let code = read(s.mem, s.pc);
    let fetched = CpuState { pc: s.pc.wrapping_add(1), ..s };
    match find_opcode(table, code) {
        None => (fetched, Err(ExecError::UnknownOpcode(code))),
        Some(op) => if op.name == OpCodeName::BRK {
            (fetched, Ok(Flow::Halt))
        } else {
            match execute(fetched, op) {
                Err(e) => (fetched, Err(e)),
                Ok(done) => if done.pc == fetched.pc {
                    (CpuState { pc: done.pc.wrapping_add((op.len - 1) as u16), ..done }, Ok(Flow::Next))
                } else {
                    (done, Ok(Flow::Next))
                },
            }
        },
    }
}

/// The machine after `n` steps from `s`, or at the step that halted or
/// failed, whichever comes first.
pub open spec fn run(s: CpuState, table: Seq<OpCode>, n: nat) -> (CpuState, Result<Flow, ExecError>)
    decreases n,
{
    if n == 0 {
        (s, Ok(Flow::Next))
    } else {
        let prev = run(s, table, (n - 1) as nat);
        if prev.1 == Ok::<Flow, ExecError>(Flow::Next) {
            step(prev.0, table)
        } else {
            prev
        }
    }
}

/// Running from `start` with `table` ended in `end` with result `r`: a halt
/// (`Ok`) or a failure reached after some number of steps, or the step
/// limit hit with the machine still running.
pub open spec fn ran_to(
    start: CpuState,
    table: Seq<OpCode>,
    end: CpuState,
    r: Result<(), ExecError>,
) -> bool {
    match r {
        Ok(()) => exists|n: nat| #[trigger] run(start, table, n) == (end, Ok::<Flow, ExecError>(Flow::Halt)),
        Err(ExecError::StepLimit) => run(start, table, u64::MAX as nat) == (end, Ok::<Flow, ExecError>(Flow::Next)),
        Err(e) => exists|n: nat| #[trigger] run(start, table, n) == (end, Err::<Flow, ExecError>(e)),
    }
}

/// A 16-bit value written at any address reads back unchanged from that
/// address, the high byte of address 0xFFFF wrapping to 0x0000.
pub proof fn lemma_write16_read16(mem: Seq<u8>, addr: u16, v: u16)
    requires
        mem.len() == MEMORY_SIZE,
    ensures
        read16(write16(mem, addr, v), addr) == v,
{
    assert(addr.wrapping_add(1) != addr);
}

/// A subroutine call and its return. Let JSR (absolute) run from `s`, and
/// let RTS run later from a state `t` whose stack pointer is where the call
/// left it and whose two stack slots written by the call are intact. Then
/// execution resumes at the instruction right after the three-byte call,
/// with the registers and flags that `t` holds, the stack pointer from
/// before the call, and memory as `t` has it.
pub proof fn lemma_call_then_return(table: Seq<OpCode>, s: CpuState, t: CpuState)
    requires
        s.mem.len() == MEMORY_SIZE,
        t.mem.len() == MEMORY_SIZE,
        find_opcode(table, read(s.mem, s.pc)) matches Some(op) && op.name == OpCodeName::JSR
            && op.mode == AddressingMode::Absolute,
        find_opcode(table, read(t.mem, t.pc)) matches Some(op) && op.name == OpCodeName::RTS
            && op.len == 1,
        t.sp == step(s, table).0.sp,
        read(t.mem, stack_address(s.sp)) == read(step(s, table).0.mem, stack_address(s.sp)),
        read(t.mem, stack_address(s.sp.wrapping_add(1))) == read(
            step(s, table).0.mem,
            stack_address(s.sp.wrapping_add(1)),
        ),
    ensures
        step(s, table).1 == Ok::<Flow, ExecError>(Flow::Next),
        step(t, table) == (
        CpuState { pc: s.pc.wrapping_add(3), sp: s.sp, ..t },
        Ok::<Flow, ExecError>(Flow::Next),
    ),
{
    let p1 = s.pc.wrapping_add(1);
    let ret = p1.wrapping_add(1);
    let sp1 = s.sp.wrapping_add(1);
    assert(stack_address(s.sp) != stack_address(sp1));
    assert(sp1.wrapping_sub(1) == s.sp);
    assert(s.sp.wrapping_add(1).wrapping_add(1).wrapping_sub(1) == sp1);
    assert(word((ret % 256) as u8, (ret / 256) as u8) == ret);
    assert(ret.wrapping_add(1) == s.pc.wrapping_add(3));
}

/// BIT takes Negative and Overflow from bits 7 and 6 of the tested byte,
/// whatever `a & m` is, and Zero from `a & m` alone; the accumulator and the
/// other flags stay as they were.
pub proof fn lemma_bit_flags(s: CpuState, addr: u16)
    ensures
        has_flag(bit(s, addr).status, Flag::Negative) == (read(s.mem, addr) & 0x80 != 0),
        has_flag(bit(s, addr).status, Flag::Overflow) == (read(s.mem, addr) & 0x40 != 0),
        has_flag(bit(s, addr).status, Flag::Zero) == (s.a & read(s.mem, addr) == 0),
        bit(s, addr).a == s.a,
        forall|f: Flag|
            f != Flag::Zero && f != Flag::Negative && f != Flag::Overflow ==> has_flag(
                #[trigger] bit(s, addr).status,
                f,
            ) == has_flag(s.status, f),
{
    let m = read(s.mem, addr);
    let st1 = with_flag(s.status, Flag::Zero, s.a & m == 0);
    let st2 = with_flag(st1, Flag::Negative, m & 0x80 != 0);
    assert forall|g: Flag| #[trigger] has_flag(bit(s, addr).status, g) == if g == Flag::Overflow {
        m & 0x40 != 0
    } else if g == Flag::Negative {
        m & 0x80 != 0
    } else if g == Flag::Zero {
        s.a & m == 0
    } else {
        has_flag(s.status, g)
    } by {
        lemma_with_flag(s.status, Flag::Zero, s.a & m == 0, g);
        lemma_with_flag(st1, Flag::Negative, m & 0x80 != 0, g);
        lemma_with_flag(st2, Flag::Overflow, m & 0x40 != 0, g);
    }
}

} // verus!
