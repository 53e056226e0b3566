use vstd::prelude::*;

pub use crate::opcode::AddressingMode;
use crate::opcode::{standard_entries, OpCode, OpCodeName, OpCodeTable};
use crate::semantics as sem;
use crate::semantics::{
    CpuState, ExecError, Flow, MEMORY_SIZE, PROGRAM_ORIGIN, RESET_VECTOR, STACK_ORIGIN,
};
pub use crate::status::{CPUStatus, Flag};

verus! {

/// The processor: its registers, its status flags and the 64 KiB address
/// space it owns.
pub struct CPU {
    pub register_a: u8,
    pub register_x: u8,
    pub register_y: u8,
    pub status: CPUStatus,
    pub stack_pointer: u8,
    pub program_counter: u16,
    memory: [u8; 65536],
}

/// The machine as plain values: each register as it stands, the status
/// register as its byte, and the address space as 65536 bytes.
impl View for CPU {
    type V = CpuState;

    closed spec fn view(&self) -> CpuState {
        CpuState {
            a: self.register_a,
            x: self.register_x,
            y: self.register_y,
            status: self.status@,
            sp: self.stack_pointer,
            pc: self.program_counter,
            mem: self.memory@,
        }
    }
}

impl CPU {
    /// A machine with every register, flag and byte of memory zero.
    pub fn new() -> (r: CPU)
        ensures
            r@ == (CpuState {
                a: 0,
                x: 0,
                y: 0,
                status: 0,
                sp: 0,
                pc: 0,
                mem: Seq::new(MEMORY_SIZE as nat, |i: int| 0u8),
            }),
    {
        let r = CPU {
            register_a: 0,
            register_x: 0,
            register_y: 0,
            status: CPUStatus::empty(),
            stack_pointer: 0,
            program_counter: 0,
            memory: [0u8; 65536],
        };
        assert(r@.mem =~= Seq::new(MEMORY_SIZE as nat, |i: int| 0u8));
        r
    }

    pub fn mem_read(&self, addr: u16) -> (r: u8)
        ensures
            r == sem::read(self@.mem, addr),
    {
        self.memory[addr as usize]
    }

    pub fn mem_write(&mut self, addr: u16, data: u8)
        ensures
            final(self)@ == (CpuState { mem: old(self)@.mem.update(addr as int, data), ..old(self)@ }),
    {
        self.memory[addr as usize] = data;
    }

    /// The little-endian 16-bit value at `addr` and `addr + 1` (wrapping).
    pub fn mem_read_u16(&self, addr: u16) -> (r: u16)
        ensures
            r == sem::read16(self@.mem, addr),
    {
        let lo = self.mem_read(addr);
        let hi = self.mem_read(addr.wrapping_add(1));
        hi as u16 * 256 + lo as u16
    }

    pub fn mem_write_u16(&mut self, addr: u16, data: u16)
        ensures
            final(self)@ == (CpuState { mem: sem::write16(old(self)@.mem, addr, data), ..old(self)@ }),
    {
        self.mem_write(addr, (data % 256) as u8);
        self.mem_write(addr.wrapping_add(1), (data / 256) as u8);
    }

    /// Zero the registers, the flags and the stack pointer, and start at the
    /// address held in the reset vector.
    pub fn reset(&mut self)
        ensures
            final(self)@ == sem::reset(old(self)@),
    {
        self.register_a = 0;
        self.register_x = 0;
        self.register_y = 0;
        self.status = CPUStatus::empty();
        self.stack_pointer = 0;
        self.program_counter = self.mem_read_u16(RESET_VECTOR);
    }

    /// Copy `program` to the program origin and point the reset vector at it.
    pub fn load(&mut self, program: Vec<u8>)
        requires
            program@.len() <= 0x8000,
        ensures
            final(self)@ == sem::load(old(self)@, program@),
    {
        let ghost start = self@;
        let mut i: usize = 0;
        assert(self@.mem =~= sem::place(start.mem, PROGRAM_ORIGIN, program@.take(0)));
        while i < program.len()
            invariant
                i <= program@.len() <= 0x8000,
                self@ == (CpuState { mem: sem::place(start.mem, PROGRAM_ORIGIN, program@.take(i as int)), ..start }),
            decreases program@.len() - i,
        {
            self.memory[0x8000 + i] = program[i];
            i = i + 1;
            assert(self@.mem =~= sem::place(start.mem, PROGRAM_ORIGIN, program@.take(i as int)));
        }
        assert(program@.take(i as int) =~= program@);
        self.mem_write_u16(RESET_VECTOR, PROGRAM_ORIGIN);
    }

    /// `load`, then `reset`, then `run`.
    pub fn load_and_run(&mut self, program: Vec<u8>) -> (r: Result<(), ExecError>)
        requires
            program@.len() <= 0x8000,
        ensures
            sem::ran_to(sem::reset(sem::load(old(self)@, program@)), standard_entries(), final(self)@, r),
    {
        self.load(program);
        self.reset();
        self.run()
    }

    /// Execute instructions from the program counter on, with the standard
    /// opcode table, until BRK halts the machine or an instruction fails
    /// (or, failing both, `u64::MAX` instructions have run).
    pub fn run(&mut self) -> (r: Result<(), ExecError>)
        ensures
            sem::ran_to(old(self)@, standard_entries(), final(self)@, r),
    {
        let table = OpCodeTable::standard();
        self.run_with(&table)
    }

    /// Execute instructions from the program counter on, decoding with
    /// `table`, until BRK halts the machine or an instruction fails (or,
    /// failing both, `u64::MAX` instructions have run).
    pub fn run_with(&mut self, table: &OpCodeTable) -> (r: Result<(), ExecError>)
        ensures
            sem::ran_to(old(self)@, table@, final(self)@, r),
    {
        let ghost start = self@;
        let mut count: u64 = 0;
        while count < u64::MAX
            invariant
                start == old(self)@,
                sem::run(start, table@, count as nat) == (self@, Ok::<Flow, ExecError>(Flow::Next)),
            decreases u64::MAX - count,
        {
            let ghost before = self@;
            let r = self.step(table);
            assert(sem::run(start, table@, (count + 1) as nat) == sem::step(before, table@));
            match r {
                Ok(Flow::Next) => {},
                Ok(Flow::Halt) => {
                    assert(sem::run(start, table@, (count + 1) as nat) == (self@, r));
                    return Ok(());
                },
                Err(e) => {
                    assert(e != ExecError::StepLimit);
                    assert(sem::run(start, table@, (count + 1) as nat) == (self@, r));
                    return Err(e);
                },
            }
            count = count + 1;
        }
        Err(ExecError::StepLimit)
    }

    /// Fetch, decode and execute one instruction.
    pub fn step(&mut self, table: &OpCodeTable) -> (r: Result<Flow, ExecError>)
        ensures
            (final(self)@, r) == sem::step(old(self)@, table@),
    {
        proof {
            use_type_invariant(table);
        }
        let code = self.mem_read(self.program_counter);
        self.program_counter = self.program_counter.wrapping_add(1);
        let resume = self.program_counter;
        let op = match table.lookup(code) {
            Some(op) => op,
            None => {
                return Err(ExecError::UnknownOpcode(code));
            },
        };
        if op.name == OpCodeName::BRK {
            return Ok(Flow::Halt);
        }
        match self.execute(&op) {
            Ok(()) => {},
            Err(e) => {
                return Err(e);
            },
        }
        if self.program_counter == resume {
            self.program_counter = self.program_counter.wrapping_add((op.len - 1) as u16);
        }
        Ok(Flow::Next)
    }

    /// Run the handler of `op`, the program counter standing at its first
    /// operand byte. A failing handler changes nothing.
    fn execute(&mut self, op: &OpCode) -> (r: Result<(), ExecError>)
        requires
            1 <= op.len <= 3,
        ensures
            match sem::execute(old(self)@, *op) {
                Ok(s) => r is Ok && final(self)@ == s,
                Err(e) => r == Err::<(), ExecError>(e) && final(self)@ == old(self)@,
            },
    {
        let illegal = ExecError::IllegalAddressing { opcode: op.byte, mode: op.mode };
        match op.name {
            OpCodeName::BRK => {},
            OpCodeName::TAX => self.tax(),
            OpCodeName::INX => self.inx(),
            OpCodeName::PHA => self.pha(),
            OpCodeName::PHP => self.php(),
            OpCodeName::PLA => self.pla(),
            OpCodeName::PLP => self.plp(),
            OpCodeName::RTS => self.rts(),
            OpCodeName::RTI => self.rti(),
            OpCodeName::CLC => self.status.remove(Flag::Carry),
            OpCodeName::CLD => self.status.remove(Flag::Decimal),
            OpCodeName::CLI => self.status.remove(Flag::InterruptDisable),
            OpCodeName::CLV => self.status.remove(Flag::Overflow),
            OpCodeName::BCC | OpCodeName::BCS | OpCodeName::BEQ | OpCodeName::BNE
            | OpCodeName::BMI | OpCodeName::BPL | OpCodeName::BVS | OpCodeName::BVC => {
                let taken = self.branch_taken(op.name);
                self.branch(taken, op.len);
            },
            OpCodeName::ASL => match op.mode {
                AddressingMode::NonAddressing => self.asl_accumulator(),
                AddressingMode::ZeroPage | AddressingMode::ZeroPage_X | AddressingMode::Absolute
                | AddressingMode::Absolute_X => {
                    if let Some(addr) = self.get_operand_address(op.mode) {
                        self.asl_memory(addr);
                    }
                },
                _ => {
                    return Err(illegal);
                },
            },
            _ => match self.get_operand_address(op.mode) {
                Some(addr) => self.execute_with_operand(op.name, addr),
                None => {
                    return Err(illegal);
                },
            },
        }
        Ok(())
    }

    /// The handlers that work on a resolved operand address.
    fn execute_with_operand(&mut self, name: OpCodeName, addr: u16)
        ensures
            final(self)@ == sem::with_operand(old(self)@, name, addr),
    {
        match name {
            OpCodeName::LDA => self.lda(addr),
            OpCodeName::LDX => self.ldx(addr),
            OpCodeName::STA => self.sta(addr),
            OpCodeName::JSR => self.jsr(addr),
            OpCodeName::ADC => self.adc(addr),
            OpCodeName::AND => self.and(addr),
            OpCodeName::BIT => self.bit(addr),
            OpCodeName::CMP => {
                let a = self.register_a;
                self.compare(a, addr);
            },
            OpCodeName::CPX => {
                let x = self.register_x;
                self.compare(x, addr);
            },
            _ => {},
        }
    }

    /// The effective address of the current instruction's operand, or `None`
    /// for a mode without a memory operand.
    fn get_operand_address(&self, mode: AddressingMode) -> (r: Option<u16>)
        ensures
            r == sem::operand_address(self@, mode),
    {
        let pc = self.program_counter;
        match mode {
            AddressingMode::Immediate => Some(pc),
            AddressingMode::ZeroPage => Some(self.mem_read(pc) as u16),
            AddressingMode::ZeroPage_X => Some(self.mem_read(pc).wrapping_add(self.register_x) as u16),
            AddressingMode::ZeroPage_Y => Some(self.mem_read(pc).wrapping_add(self.register_y) as u16),
            AddressingMode::Absolute => Some(self.mem_read_u16(pc)),
            AddressingMode::Absolute_X => Some(
                self.mem_read_u16(pc).wrapping_add(self.register_x as u16),
            ),
            AddressingMode::Absolute_Y => Some(
                self.mem_read_u16(pc).wrapping_add(self.register_y as u16),
            ),
            AddressingMode::Indirect_X => {
                let ptr = self.mem_read(pc).wrapping_add(self.register_x);
                Some(self.zero_page_pointer(ptr))
            },
            AddressingMode::Indirect_Y => {
                let ptr = self.mem_read(pc);
                Some(self.zero_page_pointer(ptr).wrapping_add(self.register_y as u16))
            },
            AddressingMode::NonAddressing => None,
        }
    }

    fn zero_page_pointer(&self, ptr: u8) -> (r: u16)
        ensures
            r == sem::zero_page_pointer(self@.mem, ptr),
    {
        let lo = self.mem_read(ptr as u16);
        let hi = self.mem_read(ptr.wrapping_add(1) as u16);
        hi as u16 * 256 + lo as u16
    }

    /// The memory address of the current stack slot.
    pub fn get_stack_pointer(&self) -> (r: u16)
        ensures
            r == sem::stack_address(self@.sp),
    {
        STACK_ORIGIN - self.stack_pointer as u16
    }

    fn push(&mut self, data: u8)
        ensures
            final(self)@ == sem::push(old(self)@, data),
    {
        let addr = self.get_stack_pointer();
        self.mem_write(addr, data);
        self.stack_pointer = self.stack_pointer.wrapping_add(1);
    }

    fn pop(&mut self) -> (r: u8)
        ensures
            (final(self)@, r) == sem::pop(old(self)@),
    {
        self.stack_pointer = self.stack_pointer.wrapping_sub(1);
        let addr = self.get_stack_pointer();
        self.mem_read(addr)
    }

    fn update_zero_and_negative_flags(&mut self, result: u8)
        ensures
            final(self)@ == (CpuState { status: sem::zn(old(self)@.status, result), ..old(self)@ }),
    {
        if result == 0 {
            self.status.insert(Flag::Zero);
        } else {
            self.status.remove(Flag::Zero);
        }
        if result & 0x80 != 0 {
            self.status.insert(Flag::Negative);
        } else {
            self.status.remove(Flag::Negative);
        }
    }

    fn lda(&mut self, addr: u16)
        ensures
            final(self)@ == sem::lda(old(self)@, addr),
    {
        let v = self.mem_read(addr);
        self.register_a = v;
        self.update_zero_and_negative_flags(v);
    }

    fn ldx(&mut self, addr: u16)
        ensures
            final(self)@ == sem::ldx(old(self)@, addr),
    {
        let v = self.mem_read(addr);
        self.register_x = v;
        self.update_zero_and_negative_flags(v);
    }

    fn sta(&mut self, addr: u16)
        ensures
            final(self)@ == sem::sta(old(self)@, addr),
    {
        let a = self.register_a;
        self.mem_write(addr, a);
    }

    fn tax(&mut self)
        ensures
            final(self)@ == sem::tax(old(self)@),
    {
        let v = self.register_a;
        self.register_x = v;
        self.update_zero_and_negative_flags(v);
    }

    /// Increment X, wrapping from 0xFF to 0x00.
    fn inx(&mut self)
        ensures
            final(self)@ == sem::inx(old(self)@),
            final(self)@.x == old(self)@.x.wrapping_add(1),
    {
        let v = self.register_x.wrapping_add(1);
        self.register_x = v;
        self.update_zero_and_negative_flags(v);
    }

    fn pha(&mut self)
        ensures
            final(self)@ == sem::push(old(self)@, old(self)@.a),
    {
        let a = self.register_a;
        self.push(a);
    }

    fn php(&mut self)
        ensures
            final(self)@ == sem::push(old(self)@, old(self)@.status),
    {
        let st = self.status.bits();
        self.push(st);
    }

    fn pla(&mut self)
        ensures
            final(self)@ == sem::pla(old(self)@),
    {
        let v = self.pop();
        self.register_a = v;
        self.update_zero_and_negative_flags(v);
    }

    fn plp(&mut self)
        ensures
            final(self)@ == sem::plp(old(self)@),
    {
        let v = self.pop();
        self.status = CPUStatus::from_bits(v);
    }

    fn jsr(&mut self, target: u16)
        ensures
            final(self)@ == sem::jsr(old(self)@, target),
    {
        let ret = self.program_counter.wrapping_add(1);
        self.push((ret / 256) as u8);
        self.push((ret % 256) as u8);
        self.program_counter = target;
    }

    fn rts(&mut self)
        ensures
            final(self)@ == sem::rts(old(self)@),
    {
        let lo = self.pop();
        let hi = self.pop();
        self.program_counter = (hi as u16 * 256 + lo as u16).wrapping_add(1);
    }

    fn rti(&mut self)
        ensures
            final(self)@ == sem::rti(old(self)@),
    {
        let st = self.pop();
        self.status = CPUStatus::from_bits(st);
        let lo = self.pop();
        let hi = self.pop();
        self.program_counter = hi as u16 * 256 + lo as u16;
    }

    fn adc(&mut self, addr: u16)
        ensures
            final(self)@ == sem::adc(old(self)@, addr),
    {
        let m = self.mem_read(addr);
        let a = self.register_a;
        let carry: u16 = if self.status.contains(Flag::Carry) {
            1
        } else {
            0
        };
        let sum: u16 = a as u16 + m as u16 + carry;
        let r = (sum % 256) as u8;
        self.register_a = r;
        self.update_zero_and_negative_flags(r);
        self.status.set(Flag::Carry, sum > 255);
        self.status.set(Flag::Overflow, (a ^ r) & (m ^ r) & 0x80 != 0);
    }

    fn and(&mut self, addr: u16)
        ensures
            final(self)@ == sem::and(old(self)@, addr),
    {
        let v = self.register_a & self.mem_read(addr);
        self.register_a = v;
        self.update_zero_and_negative_flags(v);
    }

    fn asl_accumulator(&mut self)
        ensures
            final(self)@ == sem::asl_accumulator(old(self)@),
    {
        let wide: u16 = self.register_a as u16 * 2;
        let v = (wide % 256) as u8;
        self.register_a = v;
        self.status.set(Flag::Carry, wide > 255);
        self.update_zero_and_negative_flags(v);
    }

    fn asl_memory(&mut self, addr: u16)
        ensures
            final(self)@ == sem::asl_memory(old(self)@, addr),
    {
        let wide: u16 = self.mem_read(addr) as u16 * 2;
        let v = (wide % 256) as u8;
        self.mem_write(addr, v);
        self.status.set(Flag::Carry, wide > 255);
        self.update_zero_and_negative_flags(v);
    }

    fn bit(&mut self, addr: u16)
        ensures
            final(self)@ == sem::bit(old(self)@, addr),
    {
        let m = self.mem_read(addr);
        self.status.set(Flag::Zero, self.register_a & m == 0);
        self.status.set(Flag::Negative, m & 0x80 != 0);
        self.status.set(Flag::Overflow, m & 0x40 != 0);
    }

    fn branch_taken(&self, name: OpCodeName) -> (r: bool)
        ensures
            r == sem::branch_taken(name, self.status@),
    {
        match name {
            OpCodeName::BCC => !self.status.contains(Flag::Carry),
            OpCodeName::BCS => self.status.contains(Flag::Carry),
            OpCodeName::BEQ => self.status.contains(Flag::Zero),
            OpCodeName::BNE => !self.status.contains(Flag::Zero),
            OpCodeName::BMI => self.status.contains(Flag::Negative),
            OpCodeName::BPL => !self.status.contains(Flag::Negative),
            OpCodeName::BVS => self.status.contains(Flag::Overflow),
            OpCodeName::BVC => !self.status.contains(Flag::Overflow),
            _ => false,
        }
    }

    /// When `taken`, jump by the signed displacement at the program counter,
    /// counted from the end of the `len`-byte branch instruction.
    fn branch(&mut self, taken: bool, len: usize)
        requires
            1 <= len <= 3,
        ensures
            final(self)@ == sem::branch(old(self)@, taken, len),
    {
        if taken {
            let d = self.mem_read(self.program_counter);
            let dist: i16 = if d < 128 {
                d as i16
            } else {
                d as i16 - 256
            };
            self.program_counter = self.program_counter.wrapping_add((len - 1) as u16).wrapping_add_signed(
                dist,
            );
        }
    }

    fn compare(&mut self, reg: u8, addr: u16)
        ensures
            final(self)@ == sem::compare(old(self)@, reg, addr),
    {
        let m = self.mem_read(addr);
        self.status.set(Flag::Zero, reg == m);
        self.status.set(Flag::Carry, reg >= m);
        self.status.set(Flag::Negative, reg.wrapping_sub(m) & 0x80 != 0);
    }
}

} // verus!
