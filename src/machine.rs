use vstd::prelude::*;
use crate::instruction::{decoded, Instruction};

verus! {

/// Bytes of addressable memory.
pub const MEMORY_SIZE: usize = 4096;

/// The address at which a program image is loaded and execution starts.
pub const PROGRAM_START: usize = 0x200;

/// Number of general-purpose registers.
pub const REGISTER_COUNT: usize = 16;

/// The register that arithmetic instructions use as their carry, borrow or
/// shifted-out bit.
pub const FLAG_REGISTER: usize = 0xF;

/// The deepest the call stack may grow.
pub const STACK_DEPTH: usize = 16;

/// Bytes of each built-in font sprite; the sprite of digit `d` starts at `5 * d`.
pub const FONT_SPRITE_BYTES: u16 = 5;

/// A condition that stops execution of the program.
#[derive(Debug, Clone, Copy, PartialEq, Eq, Structural)]
pub enum Fault {
    /// A call was made while the call stack was full.
    StackOverflow,
    /// A return was made while the call stack was empty.
    StackUnderflow,
    /// An instruction fetch or a memory access fell outside memory.
    MemoryOutOfBounds,
    /// A step was asked for while the machine waits for a key press.
    AwaitingKey,
}

/// The mathematical model of the whole machine state.
pub struct Machine {
    /// Memory, one byte per address.
    pub mem: Seq<u8>,
    /// The registers `V0` to `VF`.
    pub v: Seq<u8>,
    /// The program counter.
    pub pc: int,
    /// The index register.
    pub i: int,
    /// The delay timer.
    pub dt: int,
    /// The sound timer.
    pub st: int,
    /// The saved return addresses, oldest first.
    pub stack: Seq<int>,
    /// The register that receives the next key press, while the machine waits for one.
    pub waiting: Option<int>,
}

/// A timer value after one tick: one less, but never below zero.
pub open spec fn decayed(t: int) -> int {
    if t > 0 { t - 1 } else { 0 }
}

/// The big-endian word stored at `p` and `p + 1`.
pub open spec fn word_at(mem: Seq<u8>, p: int) -> u16 {
    (mem[p] as int * 256 + mem[p + 1] as int) as u16
}

/// Whether key `k` is pressed in the key bitmap `keys` (bit `k` set).
pub open spec fn key_pressed(keys: u16, k: u8) -> bool {
    k < 16 && (keys >> (k as u16)) & 1u16 == 1u16
}

/// Memory after a program image has been copied in at `PROGRAM_START`.
pub open spec fn loaded(mem: Seq<u8>, rom: Seq<u8>) -> Seq<u8> {
    Seq::new(
        mem.len(),
        |k: int|
            if PROGRAM_START <= k < PROGRAM_START + rom.len() {
                rom[k - PROGRAM_START]
            } else {
                mem[k]
            },
    )
}

/// The state of a machine that was just switched on: all zero, the program
/// counter at `PROGRAM_START`.
pub open spec fn powered_on() -> Machine {
    Machine {
        mem: Seq::new(MEMORY_SIZE as nat, |k: int| 0u8),
        v: Seq::new(REGISTER_COUNT as nat, |k: int| 0u8),
        pc: PROGRAM_START as int,
        i: 0,
        dt: 0,
        st: 0,
        stack: Seq::empty(),
        waiting: None,
    }
}

impl Machine {
    /// The shape that every reachable state has.
    pub open spec fn valid(self) -> bool {
        &&& self.mem.len() == MEMORY_SIZE
        &&& self.v.len() == REGISTER_COUNT
        &&& self.stack.len() <= STACK_DEPTH
        &&& 0 <= self.pc
        &&& 0 <= self.i < 0x10000
        &&& 0 <= self.dt < 256
        &&& 0 <= self.st < 256
        &&& self.waiting is Some ==> 0 <= self.waiting->0 < REGISTER_COUNT
    }

    /// This state with register `x` set to `b`.
    pub open spec fn with_reg(self, x: int, b: u8) -> Machine {
        Machine { v: self.v.update(x, b), ..self }
    }

    /// This state with the program counter moved past one more instruction
    /// when `cond` holds.
    pub open spec fn skip_if(self, cond: bool) -> Machine {
        Machine { pc: if cond { self.pc + 2 } else { self.pc }, ..self }
    }

    /// This state after the fetch: the program counter past the fetched
    /// word and the delay timer decayed by one tick.
    pub open spec fn fetched(self) -> Machine {
        Machine { pc: self.pc + 2, dt: decayed(self.dt), ..self }
    }

    /// The word at the program counter.
    pub open spec fn current_word(self) -> u16 {
        word_at(self.mem, self.pc)
    }
}

/// The effect of executing `inst` on `m`, where `rnd` is the random byte
/// that `Cxkk` draws and `keys` the bitmap of pressed keys.
pub open spec fn executed(m: Machine, inst: Instruction, rnd: u8, keys: u16) -> Result<
    Machine,
    Fault,
> {
    let f = FLAG_REGISTER as int;
    match inst {
        Instruction::Invalid(_) | Instruction::Cls | Instruction::DrwVxVyN(_, _, _) => Ok(m),
        Instruction::Ret => if m.stack.len() == 0 {
            Err(Fault::StackUnderflow)
        } else {
            Ok(Machine { pc: m.stack.last(), stack: m.stack.drop_last(), ..m })
        },
        Instruction::Jp(a) => Ok(Machine { pc: a as int, ..m }),
        Instruction::Call(a) => if m.stack.len() >= STACK_DEPTH {
            Err(Fault::StackOverflow)
        } else {
            Ok(Machine { pc: a as int, stack: m.stack.push(m.pc), ..m })
        },
        Instruction::SeVxKk(x, kk) => Ok(m.skip_if(m.v[x as int] == kk)),
        Instruction::SneVxKk(x, kk) => Ok(m.skip_if(m.v[x as int] != kk)),
        Instruction::SeVxVy(x, y) => Ok(m.skip_if(m.v[x as int] == m.v[y as int])),
        Instruction::SneVxVy(x, y) => Ok(m.skip_if(m.v[x as int] != m.v[y as int])),
        Instruction::LdVxKk(x, kk) => Ok(m.with_reg(x as int, kk)),
        Instruction::AddVxKk(x, kk) => Ok(
            m.with_reg(x as int, ((m.v[x as int] as int + kk as int) % 256) as u8),
        ),
        Instruction::LdVxVy(x, y) => Ok(m.with_reg(x as int, m.v[y as int])),
        Instruction::OrVxVy(x, y) => Ok(m.with_reg(x as int, m.v[x as int] | m.v[y as int])),
        Instruction::AndVxVy(x, y) => Ok(m.with_reg(x as int, m.v[x as int] & m.v[y as int])),
        Instruction::XorVxVy(x, y) => Ok(m.with_reg(x as int, m.v[x as int] ^ m.v[y as int])),
        Instruction::AddVxVy(x, y) => {
            let sum = m.v[x as int] as int + m.v[y as int] as int;
            Ok(
                m.with_reg(x as int, (sum % 256) as u8).with_reg(
                    f,
                    if sum > 255 { 1u8 } else { 0u8 },
                ),
            )
        },
        Instruction::SubVxVy(x, y) => {
            let (vx, vy) = (m.v[x as int] as int, m.v[y as int] as int);
            Ok(
                m.with_reg(f, if vx > vy { 1u8 } else { 0u8 }).with_reg(
                    x as int,
                    ((vx - vy + 256) % 256) as u8,
                ),
            )
        },
        Instruction::SubnVxVy(x, y) => {
            let (vx, vy) = (m.v[x as int] as int, m.v[y as int] as int);
            Ok(
                m.with_reg(f, if vy > vx { 1u8 } else { 0u8 }).with_reg(
                    x as int,
                    ((vy - vx + 256) % 256) as u8,
                ),
            )
        },
        Instruction::ShrVxVy(x, _) => {
            let vx = m.v[x as int] as int;
            Ok(m.with_reg(f, (vx % 2) as u8).with_reg(x as int, (vx / 2) as u8))
        },
        Instruction::ShlVxVy(x, _) => {
            let vx = m.v[x as int] as int;
            Ok(m.with_reg(f, (vx / 128) as u8).with_reg(x as int, ((vx * 2) % 256) as u8))
        },
        Instruction::LdIAddr(a) => Ok(Machine { i: a as int, ..m }),
        Instruction::JpV0Addr(a) => Ok(Machine { pc: a as int + m.v[0] as int, ..m }),
        Instruction::RndVxKk(x, kk) => Ok(m.with_reg(x as int, rnd & kk)),
        Instruction::SkpVx(x) => Ok(m.skip_if(key_pressed(keys, m.v[x as int]))),
        Instruction::SknpVx(x) => Ok(m.skip_if(!key_pressed(keys, m.v[x as int]))),
        Instruction::LdVxDt(x) => Ok(m.with_reg(x as int, m.dt as u8)),
        Instruction::LdVxK(x) => Ok(Machine { waiting: Some(x as int), ..m }),
        Instruction::LdDtVx(x) => Ok(Machine { dt: m.v[x as int] as int, ..m }),
        Instruction::LdStVx(x) => Ok(Machine { st: m.v[x as int] as int, ..m }),
        Instruction::AddIVx(x) => Ok(Machine { i: (m.i + m.v[x as int] as int) % 0x10000, ..m }),
        Instruction::LdFVx(x) => Ok(
            Machine { i: (m.v[x as int] as int % 16) * FONT_SPRITE_BYTES as int, ..m },
        ),
        Instruction::LdBcdVx(x) => if m.i + 2 >= MEMORY_SIZE {
            Err(Fault::MemoryOutOfBounds)
        } else {
            let vx = m.v[x as int];
            Ok(
                Machine {
                    mem: m.mem.update(m.i, vx / 100).update(m.i + 1, (vx / 10) % 10).update(
                        m.i + 2,
                        vx % 10,
                    ),
                    ..m
                },
            )
        },
        Instruction::LdIVx(x) => if m.i + x >= MEMORY_SIZE {
            Err(Fault::MemoryOutOfBounds)
        } else {
            Ok(
                Machine {
                    mem: Seq::new(
                        m.mem.len(),
                        |k: int|
                            if m.i <= k <= m.i + x {
                                m.v[k - m.i]
                            } else {
                                m.mem[k]
                            },
                    ),
                    ..m
                },
            )
        },
        Instruction::LdVxI(x) => if m.i + x >= MEMORY_SIZE {
            Err(Fault::MemoryOutOfBounds)
        } else {
            Ok(
                Machine {
                    v: Seq::new(
                        m.v.len(),
                        |k: int|
                            if k <= x {
                                m.mem[m.i + k]
                            } else {
                                m.v[k]
                            },
                    ),
                    ..m
                },
            )
        },
    }
}

/// One fetch-decode-execute cycle: the word at the program counter is
/// fetched, the program counter moves past it, the delay timer decays, and the
/// decoded instruction is executed. A machine that waits for a key, or whose
/// program counter leaves no room for a word, faults instead.
pub open spec fn stepped(m: Machine, rnd: u8, keys: u16) -> Result<Machine, Fault> {
    if m.waiting is Some {
        Err(Fault::AwaitingKey)
    } else if m.pc + 1 >= MEMORY_SIZE {
        Err(Fault::MemoryOutOfBounds)
    } else {
        executed(m.fetched(), decoded(m.current_word()), rnd, keys)
    }
}

/// How a step on `pre` that returned `r` and left `post` relates to the
/// model: on success `post` is the stepped state, on a fault nothing changed.
pub open spec fn step_outcome(
    pre: Machine,
    post: Machine,
    r: Result<(), Fault>,
    rnd: u8,
    keys: u16,
) -> bool {
    match stepped(pre, rnd, keys) {
        Ok(m) => r is Ok && post == m,
        Err(e) => r == Err::<(), Fault>(e) && post == pre,
    }
}

/// Whether a skip instruction skips the next instruction in `m`, given the
/// bitmap of pressed keys; `None` for an instruction that is no skip.
pub open spec fn skip_taken(m: Machine, inst: Instruction, keys: u16) -> Option<bool> {
    match inst {
        Instruction::SeVxKk(x, kk) => Some(m.v[x as int] == kk),
        Instruction::SneVxKk(x, kk) => Some(m.v[x as int] != kk),
        Instruction::SeVxVy(x, y) => Some(m.v[x as int] == m.v[y as int]),
        Instruction::SneVxVy(x, y) => Some(m.v[x as int] != m.v[y as int]),
        Instruction::SkpVx(x) => Some(key_pressed(keys, m.v[x as int])),
        Instruction::SknpVx(x) => Some(!key_pressed(keys, m.v[x as int])),
        _ => None,
    }
}

/// Whether `m` can fetch: it waits for no key and a whole word lies at the
/// program counter.
pub open spec fn can_fetch(m: Machine) -> bool {
    m.waiting is None && m.pc + 1 < MEMORY_SIZE
}

/// A timer value after `n` ticks.
pub open spec fn decayed_times(t: int, n: nat) -> int
    decreases n,
{
    if n == 0 { t } else { decayed(decayed_times(t, (n - 1) as nat)) }
}

/// A call followed at once by a return brings the program counter back to
/// the instruction after the call, with the call stack as it was.
pub proof fn lemma_call_then_return(m: Machine, a: usize, rnd1: u8, keys1: u16, rnd2: u8, keys2: u16)
    requires
        m.valid(),
        can_fetch(m),
        m.stack.len() < STACK_DEPTH,
        decoded(m.current_word()) == Instruction::Call(a),
        a + 1 < MEMORY_SIZE,
        decoded(word_at(m.mem, a as int)) == Instruction::Ret,
    ensures
        stepped(m, rnd1, keys1) is Ok,
        stepped(stepped(m, rnd1, keys1)->Ok_0, rnd2, keys2) is Ok,
        stepped(stepped(m, rnd1, keys1)->Ok_0, rnd2, keys2)->Ok_0.pc == m.pc + 2,
        stepped(stepped(m, rnd1, keys1)->Ok_0, rnd2, keys2)->Ok_0.stack == m.stack,
        stepped(stepped(m, rnd1, keys1)->Ok_0, rnd2, keys2)->Ok_0.v == m.v,
        stepped(stepped(m, rnd1, keys1)->Ok_0, rnd2, keys2)->Ok_0.mem == m.mem,
{
    let m1 = stepped(m, rnd1, keys1)->Ok_0;
    assert(m1.stack == m.stack.push(m.pc + 2));
    assert(m1.stack.drop_last() =~= m.stack);
}

/// A call made while the call stack is full overflows it, and a return made
/// while it is empty underflows it; neither changes the state.
pub proof fn lemma_stack_bounds(m: Machine, rnd: u8, keys: u16)
    requires
        m.valid(),
        can_fetch(m),
    ensures
        decoded(m.current_word()) is Call && m.stack.len() == STACK_DEPTH ==> stepped(m, rnd, keys)
            == Err::<Machine, Fault>(Fault::StackOverflow),
        decoded(m.current_word()) is Ret && m.stack.len() == 0 ==> stepped(m, rnd, keys) == Err::<
            Machine,
            Fault,
        >(Fault::StackUnderflow),
{
}

/// A skip instruction moves the program counter on by 4 when its condition
/// holds and by 2 when it does not, and changes nothing else but the delay timer.
pub proof fn lemma_skip_advance(m: Machine, rnd: u8, keys: u16)
    requires
        m.valid(),
        can_fetch(m),
        skip_taken(m, decoded(m.current_word()), keys) is Some,
    ensures
        stepped(m, rnd, keys) is Ok,
        stepped(m, rnd, keys)->Ok_0 == (Machine {
            pc: m.pc + if skip_taken(m, decoded(m.current_word()), keys)->0 { 4int } else { 2int },
            ..m.fetched()
        }),
{
}

/// Every step that succeeds and does not load the delay timer itself lowers
/// it by one, and never below zero; a step that does not load the sound
/// timer leaves it as it was.
pub proof fn lemma_timer_decay(m: Machine, rnd: u8, keys: u16)
    requires
        m.valid(),
        stepped(m, rnd, keys) is Ok,
    ensures
        !(decoded(m.current_word()) is LdDtVx) ==> stepped(m, rnd, keys)->Ok_0.dt == decayed(m.dt),
        stepped(m, rnd, keys)->Ok_0.dt >= 0,
        !(decoded(m.current_word()) is LdStVx) ==> stepped(m, rnd, keys)->Ok_0.st == m.st,
{
}

/// A word that encodes no instruction is skipped over: the step succeeds,
/// and only the program counter and the delay timer move on.
pub proof fn lemma_unrecognized_word_ignored(m: Machine, rnd: u8, keys: u16)
    requires
        m.valid(),
        can_fetch(m),
        decoded(m.current_word()) is Invalid,
    ensures
        stepped(m, rnd, keys) == Ok::<Machine, Fault>(
            Machine { pc: m.pc + 2, dt: decayed(m.dt), ..m },
        ),
{
}

/// A timer reaches zero after as many ticks as its value, and stays there.
pub proof fn lemma_decay_settles(t: int, n: nat)
    requires
        0 <= t <= n,
    ensures
        decayed_times(t, n) == 0,
    decreases n,
{
    if n > 0 {
        if t == n {
            if t > 0 {
                lemma_decay_exact(t, (n - 1) as nat);
            }
        } else {
            lemma_decay_settles(t, (n - 1) as nat);
        }
    }
}

proof fn lemma_decay_exact(t: int, n: nat)
    requires
        n < t,
    ensures
        decayed_times(t, n) == t - n,
    decreases n,
{
    if n > 0 {
        lemma_decay_exact(t, (n - 1) as nat);
    }
}

} // verus!
