use vstd::prelude::*;
use crate::instruction::{decode, operands_in_range, Instruction};
use crate::machine::{
    decayed, executed, key_pressed, loaded, powered_on, step_outcome, stepped, word_at, Fault, Machine,
    FLAG_REGISTER, FONT_SPRITE_BYTES, MEMORY_SIZE, PROGRAM_START, REGISTER_COUNT, STACK_DEPTH,
};
use crate::stack::Stack;

verus! {

/// Returned by a load when the program image does not fit in the memory
/// above `PROGRAM_START`.
#[derive(Debug, Clone, Copy, PartialEq, Eq, Structural)]
pub struct LoadError;

/// The processor: memory, registers, timers, program counter and call stack.
#[derive(Debug)]
pub struct Chip8 {
    memory: Vec<u8>,
    stack: Stack<usize>,
    pc: usize,
    v: Vec<u8>,
    i: u16,
    dt: u8,
    st: u8,
    waiting: Option<usize>,
}

/// Relies on rand::random: a byte drawn from the thread-local generator.
/// Nothing is known of its value.
#[verifier::external_body]
fn random_byte() -> (r: u8) {
    rand::random::<u8>()
}

impl Chip8 {
    /// The machine state this processor holds.
    pub closed spec fn view(&self) -> Machine {
        Machine {
            mem: self.memory@,
            v: self.v@,
            pc: self.pc as int,
            i: self.i as int,
            dt: self.dt as int,
            st: self.st as int,
            stack: self.stack@.map_values(|p: usize| p as int),
            waiting: match self.waiting {
                Some(x) => Some(x as int),
                None => None,
            },
        }
    }

    /// The representation invariant.
    pub closed spec fn wf(&self) -> bool {
        &&& self.memory@.len() == MEMORY_SIZE
        &&& self.v@.len() == REGISTER_COUNT
        &&& self.stack.wf()
        &&& self.stack.cap() == STACK_DEPTH
        &&& self.waiting is Some ==> self.waiting->0 < REGISTER_COUNT
    }

    /// A well-formed processor models a valid state.
    pub proof fn lemma_wf_valid(&self)
        requires
            self.wf(),
        ensures
            self@.valid(),
    {
    }

    /// A switched-on machine with empty memory.
    pub fn new() -> (r: Chip8)
        ensures
            r.wf(),
            r@ == powered_on(),
    {
        let mut memory: Vec<u8> = Vec::new();
        let mut k: usize = 0;
        while k < MEMORY_SIZE
            invariant
                k <= MEMORY_SIZE,
                memory@ == Seq::new(k as nat, |j: int| 0u8),
            decreases MEMORY_SIZE - k,
        {
            memory.push(0);
            k = k + 1;
            assert(memory@ =~= Seq::new(k as nat, |j: int| 0u8));
        }
        let mut v: Vec<u8> = Vec::new();
        let mut k: usize = 0;
        while k < REGISTER_COUNT
            invariant
                k <= REGISTER_COUNT,
                v@ == Seq::new(k as nat, |j: int| 0u8),
            decreases REGISTER_COUNT - k,
        {
            v.push(0);
            k = k + 1;
            assert(v@ =~= Seq::new(k as nat, |j: int| 0u8));
        }
        let r = Chip8 {
            memory,
            stack: Stack::with_capacity(STACK_DEPTH),
            pc: PROGRAM_START,
            v,
            i: 0,
            dt: 0,
            st: 0,
            waiting: None,
        };
        assert(r@.stack =~= Seq::<int>::empty());
        r
    }

    /// Copies a program image into memory at `PROGRAM_START`. An image
    /// longer than the memory above `PROGRAM_START` is refused and memory is
    /// left as it was.
    pub fn load(&mut self, rom: &Vec<u8>) -> (r: Result<(), LoadError>)
        requires
            old(self).wf(),
        ensures
            final(self).wf(),
            r is Err <==> rom@.len() > MEMORY_SIZE - PROGRAM_START,
            r is Err ==> final(self)@ == old(self)@,
            r is Ok ==> final(self)@ == (Machine { mem: loaded(old(self)@.mem, rom@), ..old(self)@ }),
    {
        if rom.len() > MEMORY_SIZE - PROGRAM_START {
            return Err(LoadError);
        }
        let ghost pre = self@;
        let mut k: usize = 0;
        while k < rom.len()
            invariant
                self.wf(),
                k <= rom@.len() <= MEMORY_SIZE - PROGRAM_START,
                self@ == (Machine { mem: self.memory@, ..pre }),
                forall|j: int|
                    0 <= j < MEMORY_SIZE ==> #[trigger] self.memory@[j] == if PROGRAM_START <= j
                        < PROGRAM_START + k {
                        rom@[j - PROGRAM_START]
                    } else {
                        pre.mem[j]
                    },
            decreases rom@.len() - k,
        {
            self.memory.set(PROGRAM_START + k, rom[k]);
            k = k + 1;
        }
        assert(self.memory@ =~= loaded(pre.mem, rom@));
        Ok(())
    }

    /// A switched-on machine with a program image loaded, or the reason the
    /// image was refused.
    pub fn from_rom(rom: &Vec<u8>) -> (r: Result<Chip8, LoadError>)
        ensures
            r is Err <==> rom@.len() > MEMORY_SIZE - PROGRAM_START,
            r is Ok ==> r->Ok_0.wf() && r->Ok_0@ == (Machine {
                mem: loaded(powered_on().mem, rom@),
                ..powered_on()
            }),
    {
        let mut c = Chip8::new();
        match c.load(rom) {
            Ok(()) => Ok(c),
            Err(e) => Err(e),
        }
    }

    fn set_reg(&mut self, x: usize, b: u8)
        requires
            old(self).wf(),
            x < REGISTER_COUNT,
        ensures
            final(self).wf(),
            final(self)@ == old(self)@.with_reg(x as int, b),
    {
        self.v.set(x, b);
    }

    fn skip_if(&mut self, cond: bool)
        requires
            old(self).wf(),
            old(self).pc <= MEMORY_SIZE,
        ensures
            final(self).wf(),
            final(self)@ == old(self)@.skip_if(cond),
    {
        if cond {
            self.pc = self.pc + 2;
        }
    }

    /// `Fx33`: the decimal digits of `Vx` at `I`, `I + 1` and `I + 2`.
    fn store_bcd(&mut self, x: usize) -> (r: Result<(), Fault>)
        requires
            old(self).wf(),
            x < REGISTER_COUNT,
        ensures
            final(self).wf(),
            match executed(old(self)@, Instruction::LdBcdVx(x), 0, 0) {
                Ok(m) => r is Ok && final(self)@ == m,
                Err(e) => r == Err::<(), Fault>(e) && final(self)@ == old(self)@,
            },
    {
        let base = self.i as usize;
        if base + 2 >= MEMORY_SIZE {
            return Err(Fault::MemoryOutOfBounds);
        }
        let vx = self.v[x];
        self.memory.set(base, vx / 100);
        self.memory.set(base + 1, (vx / 10) % 10);
        self.memory.set(base + 2, vx % 10);
        Ok(())
    }

    /// `Fx55`: `V0` to `Vx` at `I` onwards.
    fn store_registers(&mut self, x: usize) -> (r: Result<(), Fault>)
        requires
            old(self).wf(),
            x < REGISTER_COUNT,
        ensures
            final(self).wf(),
            match executed(old(self)@, Instruction::LdIVx(x), 0, 0) {
                Ok(m) => r is Ok && final(self)@ == m,
                Err(e) => r == Err::<(), Fault>(e) && final(self)@ == old(self)@,
            },
    {
        let base = self.i as usize;
        if base + x >= MEMORY_SIZE {
            return Err(Fault::MemoryOutOfBounds);
        }
        let ghost pre = self@;
        let mut k: usize = 0;
        while k <= x
            invariant
                self.wf(),
                x < REGISTER_COUNT,
                base == pre.i,
                base + x < MEMORY_SIZE,
                k <= x + 1,
                self@ == (Machine { mem: self.memory@, ..pre }),
                forall|j: int|
                    0 <= j < MEMORY_SIZE ==> #[trigger] self.memory@[j] == if base <= j < base
                        + k {
                        pre.v[j - base]
                    } else {
                        pre.mem[j]
                    },
            decreases x + 1 - k,
        {
            let b = self.v[k];
            self.memory.set(base + k, b);
            k = k + 1;
        }
        assert(self.memory@ =~= Seq::new(
            pre.mem.len(),
            |j: int|
                if pre.i <= j <= pre.i + x {
                    pre.v[j - pre.i]
                } else {
                    pre.mem[j]
                },
        ));
        Ok(())
    }

    /// `Fx65`: `V0` to `Vx` from `I` onwards.
    fn load_registers(&mut self, x: usize) -> (r: Result<(), Fault>)
        requires
            old(self).wf(),
            x < REGISTER_COUNT,
        ensures
            final(self).wf(),
            match executed(old(self)@, Instruction::LdVxI(x), 0, 0) {
                Ok(m) => r is Ok && final(self)@ == m,
                Err(e) => r == Err::<(), Fault>(e) && final(self)@ == old(self)@,
            },
    {
        let base = self.i as usize;
        if base + x >= MEMORY_SIZE {
            return Err(Fault::MemoryOutOfBounds);
        }
        let ghost pre = self@;
        let mut k: usize = 0;
        while k <= x
            invariant
                self.wf(),
                x < REGISTER_COUNT,
                base == pre.i,
                base + x < MEMORY_SIZE,
                k <= x + 1,
                self@ == (Machine { v: self.v@, ..pre }),
                forall|j: int|
                    0 <= j < REGISTER_COUNT ==> #[trigger] self.v@[j] == if j < k {
                        pre.mem[base + j]
                    } else {
                        pre.v[j]
                    },
            decreases x + 1 - k,
        {
            let b = self.memory[base + k];
            self.v.set(k, b);
            k = k + 1;
        }
        assert(self.v@ =~= Seq::new(
            pre.v.len(),
            |j: int|
                if j <= x {
                    pre.mem[pre.i + j]
                } else {
                    pre.v[j]
                },
        ));
        Ok(())
    }

    fn execute(&mut self, inst: Instruction, rnd: u8, keys: u16) -> (r: Result<(), Fault>)
        requires
            old(self).wf(),
            old(self).pc <= MEMORY_SIZE,
            operands_in_range(inst),
        ensures
            final(self).wf(),
            match executed(old(self)@, inst, rnd, keys) {
                Ok(m) => r is Ok && final(self)@ == m,
                Err(e) => r == Err::<(), Fault>(e) && final(self)@ == old(self)@,
            },
    {
        match inst {
            Instruction::Invalid(_) | Instruction::Cls | Instruction::DrwVxVyN(_, _, _) => Ok(()),
            Instruction::Ret => match self.stack.pop() {
                Some(p) => {
                    self.pc = p;
                    assert(self@.stack =~= old(self)@.stack.drop_last());
                    Ok(())
                },
                None => Err(Fault::StackUnderflow),
            },
            Instruction::Jp(a) => {
                self.pc = a;
                Ok(())
            },
            Instruction::Call(a) => match self.stack.push(self.pc) {
                Ok(_) => {
                    self.pc = a;
                    assert(self@.stack =~= old(self)@.stack.push(old(self).pc as int));
                    Ok(())
                },
                Err(_) => Err(Fault::StackOverflow),
            },
            Instruction::SeVxKk(x, kk) => {
                let c = self.v[x] == kk;
                self.skip_if(c);
                Ok(())
            },
            Instruction::SneVxKk(x, kk) => {
                let c = self.v[x] != kk;
                self.skip_if(c);
                Ok(())
            },
            Instruction::SeVxVy(x, y) => {
                let c = self.v[x] == self.v[y];
                self.skip_if(c);
                Ok(())
            },
            Instruction::SneVxVy(x, y) => {
                let c = self.v[x] != self.v[y];
                self.skip_if(c);
                Ok(())
            },
            Instruction::LdVxKk(x, kk) => {
                self.set_reg(x, kk);
                Ok(())
            },
            Instruction::AddVxKk(x, kk) => {
                let b = ((self.v[x] as u16 + kk as u16) % 256) as u8;
                self.set_reg(x, b);
                Ok(())
            },
            Instruction::LdVxVy(x, y) => {
                let b = self.v[y];
                self.set_reg(x, b);
                Ok(())
            },
            Instruction::OrVxVy(x, y) => {
                let b = self.v[x] | self.v[y];
                self.set_reg(x, b);
                Ok(())
            },
            Instruction::AndVxVy(x, y) => {
                let b = self.v[x] & self.v[y];
                self.set_reg(x, b);
                Ok(())
            },
            Instruction::XorVxVy(x, y) => {
                let b = self.v[x] ^ self.v[y];
                self.set_reg(x, b);
                Ok(())
            },
            Instruction::AddVxVy(x, y) => {
                let sum: u16 = self.v[x] as u16 + self.v[y] as u16;
                self.set_reg(x, (sum % 256) as u8);
                self.set_reg(FLAG_REGISTER, if sum > 255 { 1 } else { 0 });
                Ok(())
            },
            Instruction::SubVxVy(x, y) => {
                let (vx, vy) = (self.v[x], self.v[y]);
                self.set_reg(FLAG_REGISTER, if vx > vy { 1 } else { 0 });
                self.set_reg(x, ((vx as u16 + 256 - vy as u16) % 256) as u8);
                Ok(())
            },
            Instruction::SubnVxVy(x, y) => {
                let (vx, vy) = (self.v[x], self.v[y]);
                self.set_reg(FLAG_REGISTER, if vy > vx { 1 } else { 0 });
                self.set_reg(x, ((vy as u16 + 256 - vx as u16) % 256) as u8);
                Ok(())
            },
            Instruction::ShrVxVy(x, _) => {
                let vx = self.v[x];
                self.set_reg(FLAG_REGISTER, vx % 2);
                self.set_reg(x, vx / 2);
                Ok(())
            },
            Instruction::ShlVxVy(x, _) => {
                let vx = self.v[x];
                self.set_reg(FLAG_REGISTER, vx / 128);
                self.set_reg(x, ((vx as u16 * 2) % 256) as u8);
                Ok(())
            },
            Instruction::LdIAddr(a) => {
                self.i = a as u16;
                Ok(())
            },
            Instruction::JpV0Addr(a) => {
                self.pc = a + self.v[0] as usize;
                Ok(())
            },
            Instruction::RndVxKk(x, kk) => {
                self.set_reg(x, rnd & kk);
                Ok(())
            },
            Instruction::SkpVx(x) => {
                let k = self.v[x];
                let c = k < 16 && (keys >> (k as u16)) & 1u16 == 1u16;
                self.skip_if(c);
                Ok(())
            },
            Instruction::SknpVx(x) => {
                let k = self.v[x];
                let c = k < 16 && (keys >> (k as u16)) & 1u16 == 1u16;
                self.skip_if(!c);
                Ok(())
            },
            Instruction::LdVxDt(x) => {
                let b = self.dt;
                self.set_reg(x, b);
                Ok(())
            },
            Instruction::LdVxK(x) => {
                self.waiting = Some(x);
                Ok(())
            },
            Instruction::LdDtVx(x) => {
                self.dt = self.v[x];
                Ok(())
            },
            Instruction::LdStVx(x) => {
                self.st = self.v[x];
                Ok(())
            },
            Instruction::AddIVx(x) => {
                self.i = ((self.i as u32 + self.v[x] as u32) % 0x10000) as u16;
                Ok(())
            },
            Instruction::LdFVx(x) => {
                self.i = (self.v[x] as u16 % 16) * FONT_SPRITE_BYTES;
                Ok(())
            },
            Instruction::LdBcdVx(x) => self.store_bcd(x),
            Instruction::LdIVx(x) => self.store_registers(x),
            Instruction::LdVxI(x) => self.load_registers(x),
        }
    }

    /// One fetch-decode-execute cycle, with `rnd` as the random byte that
    /// `Cxkk` uses and `keys` as the bitmap of pressed keys (bit `k` for key
    /// `k`). On a fault the state is left as it was.
    pub fn step(&mut self, rnd: u8, keys: u16) -> (r: Result<(), Fault>)
        requires
            old(self).wf(),
        ensures
            final(self).wf(),
            step_outcome(old(self)@, final(self)@, r, rnd, keys),
    {
        if self.waiting.is_some() {
            return Err(Fault::AwaitingKey);
        }
        if self.pc >= MEMORY_SIZE - 1 {
            return Err(Fault::MemoryOutOfBounds);
        }
        let pc0 = self.pc;
        let w: u16 = self.memory[pc0] as u16 * 256 + self.memory[pc0 + 1] as u16;
        assert(w == word_at(old(self)@.mem, pc0 as int));
        let inst = decode(w);
        let dt0 = self.dt;
        self.pc = pc0 + 2;
        if self.dt > 0 {
            self.dt = self.dt - 1;
        }
        assert(self@ == old(self)@.fetched());
        match self.execute(inst, rnd, keys) {
            Ok(()) => Ok(()),
            Err(e) => {
                self.pc = pc0;
                self.dt = dt0;
                Err(e)
            },
        }
    }

    /// One cycle as `step` does it, with a freshly drawn random byte.
    pub fn tick(&mut self, keys: u16) -> (r: Result<(), Fault>)
        requires
            old(self).wf(),
        ensures
            final(self).wf(),
            exists|b: u8| #[trigger] step_outcome(old(self)@, final(self)@, r, b, keys),
    {
        let b = random_byte();
        let r = self.step(b, keys);
        assert(step_outcome(old(self)@, final(self)@, r, b, keys));
        r
    }

    /// Hands the machine the key it waits for: the key goes to the waiting
    /// register and execution may go on. A machine that waits for no key is
    /// left as it is.
    pub fn supply_key(&mut self, key: u8)
        requires
            old(self).wf(),
        ensures
            final(self).wf(),
            match old(self)@.waiting {
                Some(x) => final(self)@ == (Machine {
                    v: old(self)@.v.update(x, key),
                    waiting: None,
                    ..old(self)@
                }),
                None => final(self)@ == old(self)@,
            },
    {
        if let Some(x) = self.waiting {
            self.v.set(x, key);
            self.waiting = None;
        }
    }

    /// One tick of the sound timer, which the driver runs at its own fixed
    /// rate: one less, but never below zero. Nothing else changes.
    pub fn tick_sound_timer(&mut self)
        requires
            old(self).wf(),
        ensures
            final(self).wf(),
            final(self)@ == (Machine { st: decayed(old(self)@.st), ..old(self)@ }),
    {
        if self.st > 0 {
            self.st = self.st - 1;
        }
    }

    /// The program counter.
    pub fn pc(&self) -> (r: usize)
        ensures
            r == self@.pc,
    {
        self.pc
    }

    /// The register `Vx`.
    pub fn register(&self, x: usize) -> (r: u8)
        requires
            self.wf(),
            x < REGISTER_COUNT,
        ensures
            r == self@.v[x as int],
    {
        self.v[x]
    }

    /// The index register.
    pub fn index(&self) -> (r: u16)
        ensures
            r == self@.i,
    {
        self.i
    }

    /// The delay timer.
    pub fn delay_timer(&self) -> (r: u8)
        ensures
            r == self@.dt,
    {
        self.dt
    }

    /// The sound timer; a tone sounds while it is not zero.
    pub fn sound_timer(&self) -> (r: u8)
        ensures
            r == self@.st,
    {
        self.st
    }

    /// The number of saved return addresses.
    pub fn stack_depth(&self) -> (r: usize)
        ensures
            r == self@.stack.len(),
    {
        self.stack.len()
    }

    /// The register that receives the next key press, while the machine
    /// waits for one.
    pub fn awaiting_key(&self) -> (r: Option<usize>)
        ensures
            r is Some <==> self@.waiting is Some,
            r is Some ==> r->0 == self@.waiting->0,
    {
        self.waiting
    }

    /// A copy of the whole memory.
    pub fn snapshot(&self) -> (r: Vec<u8>)
        requires
            self.wf(),
        ensures
            r@ == self@.mem,
    {
        let mut out: Vec<u8> = Vec::new();
        let mut k: usize = 0;
        while k < self.memory.len()
            invariant
                k <= self.memory@.len(),
                out@ == self.memory@.subrange(0, k as int),
            decreases self.memory@.len() - k,
        {
            out.push(self.memory[k]);
            k = k + 1;
            assert(out@ =~= self.memory@.subrange(0, k as int));
        }
        assert(out@ =~= self.memory@);
        out
    }
}

} // verus!
