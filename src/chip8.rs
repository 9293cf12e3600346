use vstd::prelude::*;

use crate::instr::{Instr, Op};
use crate::keys::{first_down_spec, Keys, NUM_KEYS};
use crate::memory::{
    initial_memory, load_check, LoadError, Memory, FONT_START, GLYPH_SIZE, MEMORY_SIZE,
};
use crate::registers::{Registers, FLAG, NUM_REGISTERS};
use crate::screen::{blank_grid, Screen};
use crate::sprite::{collides, draw_sprite, drawn_grid, rows_on_grid};
use crate::timers::Timers;

verus! {

/// Behaviours on which historical interpreters differ, fixed when the engine
/// is built.
#[derive(Debug, Clone, Copy, PartialEq, Eq, Default, Hash)]
pub struct Config {
    /// The shifts `8xy6` and `8xyE` first copy `Vy` into `Vx`.
    pub bitshift_copies_y: bool,
    /// The offset jump `Bxnn` adds `Vx` rather than `V0`.
    pub jump_with_offset_register: bool,
    /// The bulk transfers `Fx55` and `Fx65` advance the index register past
    /// the cells they touched.
    pub update_i_after_store_or_load: bool,
    /// The host prints each instruction before it runs.
    pub debug_print_instrs: bool,
}

/// Why the engine stopped. None of these can be recovered from: the program is
/// malformed or asks for something this machine does not do.
#[derive(Debug, Clone, Copy, PartialEq, Eq, Structural)]
pub enum Fault {
    /// The program counter does not point at two bytes of memory.
    ProgramCounterOutOfRange { pc: usize },
    /// A `0nnn` instruction: machine code of the original host computer.
    MachineCode { word: u16 },
    /// A word outside the instruction set.
    UnknownInstruction { word: u16 },
    /// A return with no call to return from.
    StackUnderflow,
    /// The cells that an instruction reads or writes from the index register
    /// run past the top of memory.
    IndexOutOfRange { index: usize },
}

/// The engine's own state, as the contracts see it.
pub struct MachineState {
    pub config: Config,
    pub memory: Seq<u8>,
    pub registers: Seq<u8>,
    pub pc: usize,
    pub i: u16,
    pub stack: Seq<usize>,
}

impl MachineState {
    /// The shape every engine state has.
    pub open spec fn wf(self) -> bool {
        &&& self.memory.len() == MEMORY_SIZE
        &&& self.registers.len() == NUM_REGISTERS
    }

    pub open spec fn reg(self, x: u8) -> u8 {
        self.registers[x as int]
    }

    pub open spec fn with_reg(self, x: u8, v: u8) -> MachineState {
        MachineState { registers: self.registers.update(x as int, v), ..self }
    }

    pub open spec fn with_flag(self, v: u8) -> MachineState {
        self.with_reg(FLAG, v)
    }

    pub open spec fn with_pc(self, pc: usize) -> MachineState {
        MachineState { pc, ..self }
    }

    pub open spec fn with_index(self, i: u16) -> MachineState {
        MachineState { i, ..self }
    }

    /// Passes over the next instruction when `cond` holds.
    pub open spec fn skip_if(self, cond: bool) -> MachineState {
        if cond {
            self.with_pc((self.pc + 2) as usize)
        } else {
            self
        }
    }
}

/// `1` for `true`, `0` for `false`.
pub open spec fn flag_of(b: bool) -> u8 {
    if b {
        1
    } else {
        0
    }
}

/// Memory after registers `0..=x` have been written to it from `i` upward.
pub open spec fn stored(mem: Seq<u8>, regs: Seq<u8>, i: int, x: int) -> Seq<u8> {
    Seq::new(mem.len(), |a: int| if i <= a <= i + x { regs[a - i] } else { mem[a] })
}

/// Registers after `0..=x` have been read from memory at `i` upward.
pub open spec fn loaded(regs: Seq<u8>, mem: Seq<u8>, i: int, x: int) -> Seq<u8> {
    Seq::new(regs.len(), |r: int| if r <= x { mem[i + r] } else { regs[r] })
}

/// The register that `8xy6` and `8xyE` shift, with the copy quirk applied.
pub open spec fn shift_source(m: MachineState, x: u8, y: u8) -> MachineState {
    if m.config.bitshift_copies_y {
        m.with_reg(x, m.reg(y))
    } else {
        m
    }
}

/// The effect of `6xnn`, `7xnn` and the `8xy_` family on the registers.
pub open spec fn alu_spec(m: MachineState, op: Op) -> MachineState {
    match op {
        Op::SetImmediate { x, value } => m.with_reg(x, value),
        Op::AddImmediate { x, value } => m.with_reg(x, ((m.reg(x) + value) % 256) as u8),
        Op::Copy { x, y } => m.with_reg(x, m.reg(y)),
        Op::Or { x, y } => m.with_reg(x, m.reg(x) | m.reg(y)).with_flag(0),
        Op::And { x, y } => m.with_reg(x, m.reg(x) & m.reg(y)).with_flag(0),
        Op::Xor { x, y } => m.with_reg(x, m.reg(x) ^ m.reg(y)).with_flag(0),
        Op::AddWithCarry { x, y } => {
            let sum = m.reg(x) + m.reg(y);
            m.with_reg(x, (sum % 256) as u8).with_flag(flag_of(sum > 255))
        },
        Op::Subtract { x, y } => {
            let diff = m.reg(x) - m.reg(y);
            m.with_reg(x, ((diff + 256) % 256) as u8).with_flag(flag_of(diff >= 0))
        },
        Op::SubtractFrom { x, y } => {
            let diff = m.reg(y) - m.reg(x);
            m.with_reg(x, ((diff + 256) % 256) as u8).with_flag(flag_of(diff >= 0))
        },
        Op::ShiftRight { x, y } => {
            let s = shift_source(m, x, y);
            let n = s.reg(x);
            s.with_reg(x, n / 2).with_flag(n % 2)
        },
        Op::ShiftLeft { x, y } => {
            let s = shift_source(m, x, y);
            let n = s.reg(x);
            s.with_reg(x, ((n * 2) % 256) as u8).with_flag(flag_of(n >= 128))
        },
        _ => m,
    }
}

/// Whether `op` belongs to the family that `alu_spec` describes.
pub open spec fn is_alu(op: Op) -> bool {
    ||| op is SetImmediate
    ||| op is AddImmediate
    ||| op is Copy
    ||| op is Or
    ||| op is And
    ||| op is Xor
    ||| op is AddWithCarry
    ||| op is Subtract
    ||| op is SubtractFrom
    ||| op is ShiftRight
    ||| op is ShiftLeft
}

/// The effect of jumps, skips on registers, calls, returns and the
/// instructions that set the index register.
pub open spec fn control_spec(m: MachineState, op: Op) -> Result<MachineState, Fault> {
    match op {
        Op::Return => if m.stack.len() == 0 {
            Err(Fault::StackUnderflow)
        } else {
            Ok(MachineState { pc: m.stack.last(), stack: m.stack.drop_last(), ..m })
        },
        Op::Jump { address } => Ok(m.with_pc(address)),
        Op::Call { address } => Ok(MachineState { pc: address, stack: m.stack.push(m.pc), ..m }),
        Op::SkipIfEqual { x, value } => Ok(m.skip_if(m.reg(x) == value)),
        Op::SkipIfNotEqual { x, value } => Ok(m.skip_if(m.reg(x) != value)),
        Op::SkipIfRegistersEqual { x, y } => Ok(m.skip_if(m.reg(x) == m.reg(y))),
        Op::SkipIfRegistersNotEqual { x, y } => Ok(m.skip_if(m.reg(x) != m.reg(y))),
        Op::SetIndex { address } => Ok(m.with_index(address as u16)),
        Op::JumpWithOffset { x, address } => {
            let offset = if m.config.jump_with_offset_register {
                m.reg(x)
            } else {
                m.reg(0)
            };
            Ok(m.with_pc((address + offset) as usize))
        },
        Op::AddToIndex { x } => {
            let sum = m.i + m.reg(x);
            if sum >= MEMORY_SIZE {
                Ok(m.with_index((sum % 4096) as u16).with_flag(1))
            } else {
                Ok(m.with_index(sum as u16))
            }
        },
        Op::FontCharacter { x } => Ok(
            m.with_index((FONT_START + (m.reg(x) % 16) * GLYPH_SIZE) as u16),
        ),
        _ => Ok(m),
    }
}

/// Whether `op` belongs to the family that `control_spec` describes.
pub open spec fn is_control(op: Op) -> bool {
    ||| op is Return
    ||| op is Jump
    ||| op is Call
    ||| op is SkipIfEqual
    ||| op is SkipIfNotEqual
    ||| op is SkipIfRegistersEqual
    ||| op is SkipIfRegistersNotEqual
    ||| op is SetIndex
    ||| op is JumpWithOffset
    ||| op is AddToIndex
    ||| op is FontCharacter
}

/// The index register after a bulk transfer of registers `0..=x`.
pub open spec fn index_after_transfer(m: MachineState, x: u8) -> u16 {
    if m.config.update_i_after_store_or_load {
        (m.i + x + 1) as u16
    } else {
        m.i
    }
}

/// The effect of `Fx33`, `Fx55` and `Fx65`, which move bytes between the
/// registers and memory at the index register.
pub open spec fn transfer_spec(m: MachineState, op: Op) -> Result<MachineState, Fault> {
    match op {
        Op::DecimalDigits { x } => if m.i + 2 >= MEMORY_SIZE {
            Err(Fault::IndexOutOfRange { index: m.i as usize })
        } else {
            let n = m.reg(x);
            let mem = m.memory.update(m.i as int, (n / 100) as u8).update(
                m.i + 1,
                ((n % 100) / 10) as u8,
            ).update(m.i + 2, (n % 10) as u8);
            Ok(MachineState { memory: mem, ..m })
        },
        Op::StoreRegisters { x } => if m.i + x >= MEMORY_SIZE {
            Err(Fault::IndexOutOfRange { index: m.i as usize })
        } else {
            Ok(
                MachineState {
                    memory: stored(m.memory, m.registers, m.i as int, x as int),
                    i: index_after_transfer(m, x),
                    ..m
                },
            )
        },
        Op::LoadRegisters { x } => if m.i + x >= MEMORY_SIZE {
            Err(Fault::IndexOutOfRange { index: m.i as usize })
        } else {
            Ok(
                MachineState {
                    registers: loaded(m.registers, m.memory, m.i as int, x as int),
                    i: index_after_transfer(m, x),
                    ..m
                },
            )
        },
        _ => Ok(m),
    }
}

/// Whether `op` belongs to the family that `transfer_spec` describes.
pub open spec fn is_transfer(op: Op) -> bool {
    op is DecimalDigits || op is StoreRegisters || op is LoadRegisters
}

/// The effect of one instruction on the engine, the grid and the timers, the
/// program counter having already moved past it; or the fault that stops the
/// engine. `rnd` is the random byte that `Cxnn` consumes.
pub open spec fn exec_spec(
    m: MachineState,
    instr: Instr,
    g: Seq<Seq<bool>>,
    t: Timers,
    keys: Seq<bool>,
    rnd: u8,
) -> Result<(MachineState, Seq<Seq<bool>>, Timers), Fault> {
    let op = instr.op();
    if is_alu(op) {
        Ok((alu_spec(m, op), g, t))
    } else if is_control(op) {
        match control_spec(m, op) {
            Ok(m2) => Ok((m2, g, t)),
            Err(f) => Err(f),
        }
    } else if is_transfer(op) {
        match transfer_spec(m, op) {
            Ok(m2) => Ok((m2, g, t)),
            Err(f) => Err(f),
        }
    } else {
        match op {
            Op::ClearScreen => Ok((m, blank_grid(), t)),
            Op::Random { x, mask } => Ok((m.with_reg(x, rnd & mask), g, t)),
            Op::Draw { x, y, rows } => {
                let x0 = m.reg(x) as int % 64;
                let y0 = m.reg(y) as int % 32;
                if m.i + rows_on_grid(y0, rows as int) > MEMORY_SIZE {
                    Err(Fault::IndexOutOfRange { index: m.i as usize })
                } else {
                    let hit = collides(g, m.memory, m.i as int, x0, y0, rows as int);
                    Ok(
                        (
                            m.with_flag(flag_of(hit)),
                            drawn_grid(g, m.memory, m.i as int, x0, y0, rows as int),
                            t,
                        ),
                    )
                }
            },
            Op::SkipIfKey { x } => Ok((m.skip_if(keys[m.reg(x) as int % 16]), g, t)),
            Op::SkipIfNotKey { x } => Ok((m.skip_if(!keys[m.reg(x) as int % 16]), g, t)),
            Op::ReadDelayTimer { x } => Ok((m.with_reg(x, t.delay_timer), g, t)),
            Op::WaitForKey { x } => match first_down_spec(keys) {
                Some(k) => Ok((m.with_reg(x, k), g, t)),
                None => Ok((m.with_pc((m.pc - 2) as usize), g, t)),
            },
            Op::SetDelayTimer { x } => Ok((m, g, Timers { delay_timer: m.reg(x), ..t })),
            Op::SetSoundTimer { x } => Ok((m, g, Timers { sound_timer: m.reg(x), ..t })),
            Op::MachineCode { .. } => Err(Fault::MachineCode { word: instr.word_spec() }),
            _ => Err(Fault::UnknownInstruction { word: instr.word_spec() }),
        }
    }
}

/// `exec_spec` with its fault folded in: on a fault nothing changes.
pub open spec fn exec_outcome(
    m: MachineState,
    instr: Instr,
    g: Seq<Seq<bool>>,
    t: Timers,
    keys: Seq<bool>,
    rnd: u8,
) -> (MachineState, Seq<Seq<bool>>, Timers, Result<(), Fault>) {
    match exec_spec(m, instr, g, t, keys, rnd) {
        Ok((m2, g2, t2)) => (m2, g2, t2, Ok(())),
        Err(f) => (m, g, t, Err(f)),
    }
}

/// The instruction at the program counter, if the counter points at two bytes
/// of memory.
pub open spec fn fetch_spec(m: MachineState) -> Option<Instr> {
    if m.pc + 1 < MEMORY_SIZE {
        Some(Instr { b1: m.memory[m.pc as int], b2: m.memory[m.pc + 1] })
    } else {
        None
    }
}

/// One full cycle: fetch the instruction at the program counter, move the
/// counter past it, and execute it.
pub open spec fn step_spec(
    m: MachineState,
    g: Seq<Seq<bool>>,
    t: Timers,
    keys: Seq<bool>,
    rnd: u8,
) -> (MachineState, Seq<Seq<bool>>, Timers, Result<(), Fault>) {
    match fetch_spec(m) {
        Some(instr) => exec_outcome(m.with_pc((m.pc + 2) as usize), instr, g, t, keys, rnd),
        None => (m, g, t, Err(Fault::ProgramCounterOutOfRange { pc: m.pc })),
    }
}

/// The key-wait instruction `Fx0A` busy-waits by replay: while no key is down,
/// a full cycle leaves the engine exactly as it was, so the same instruction
/// runs again; once a key is down, the cycle moves past the instruction and
/// stores the lowest-numbered key that is down in `Vx`.
pub proof fn lemma_key_wait(
    m: MachineState,
    g: Seq<Seq<bool>>,
    t: Timers,
    keys: Seq<bool>,
    rnd: u8,
)
    requires
        m.wf(),
        keys.len() == NUM_KEYS,
        fetch_spec(m) is Some,
        fetch_spec(m)->Some_0.op() is WaitForKey,
    ensures
        ({
            let x = fetch_spec(m)->Some_0.op()->WaitForKey_x;
            let (m2, g2, t2, r) = step_spec(m, g, t, keys, rnd);
            &&& r == Ok::<(), Fault>(())
            &&& g2 == g
            &&& t2 == t
            &&& (forall|k: int| 0 <= k < NUM_KEYS ==> !keys[k]) ==> m2 == m
            &&& forall|k: int|
                0 <= k < NUM_KEYS && #[trigger] keys[k] && (forall|j: int| 0 <= j < k ==> !keys[j])
                    ==> m2 == m.with_pc((m.pc + 2) as usize).with_reg(x, k as u8)
        }),
{
    let instr = fetch_spec(m)->Some_0;
    let m1 = m.with_pc((m.pc + 2) as usize);
    assert(!is_alu(instr.op()) && !is_control(instr.op()) && !is_transfer(instr.op()));
    assert forall|k: int|
        0 <= k < NUM_KEYS && #[trigger] keys[k] && (forall|j: int| 0 <= j < k ==> !keys[j]) implies first_down_spec(keys) == Some(k as u8) by {
        let c = choose|c: int| 0 <= c < keys.len() && keys[c] && forall|j: int| 0 <= j < c ==> !keys[j];
        if c < k {
            assert(!keys[c]);
        } else if c > k {
            assert(!keys[k]);
        }
    }
    if forall|k: int| 0 <= k < NUM_KEYS ==> !keys[k] {
        assert(first_down_spec(keys) is None);
        assert(m1.with_pc((m1.pc - 2) as usize) == m);
    }
}

/// Storing registers `0..=x` with `Fx55` and loading them back with `Fx65`
/// from the same index restores every register bit for bit, and the load
/// leaves memory as the store wrote it.
pub proof fn lemma_store_load_round_trip(
    m: MachineState,
    x: u8,
    g: Seq<Seq<bool>>,
    t: Timers,
    keys: Seq<bool>,
    rnd: u8,
)
    requires
        m.wf(),
        x < NUM_REGISTERS,
        m.i + x < MEMORY_SIZE,
    ensures
        ({
            let store = Instr { b1: (0xF0 + x) as u8, b2: 0x55 };
            let load = Instr { b1: (0xF0 + x) as u8, b2: 0x65 };
            match exec_spec(m, store, g, t, keys, rnd) {
                Ok((m1, g1, t1)) => match exec_spec(m1.with_index(m.i), load, g1, t1, keys, rnd) {
                    Ok((m2, _, _)) => m2.registers == m.registers && m2.memory == m1.memory,
                    Err(_) => false,
                },
                Err(_) => false,
            }
        }),
{
    let store = Instr { b1: (0xF0 + x) as u8, b2: 0x55 };
    let load = Instr { b1: (0xF0 + x) as u8, b2: 0x65 };
    assert(store.op() == Op::StoreRegisters { x });
    assert(load.op() == Op::LoadRegisters { x });
    let m1 = MachineState {
        memory: stored(m.memory, m.registers, m.i as int, x as int),
        i: index_after_transfer(m, x),
        ..m
    };
    let m2 = m1.with_index(m.i);
    assert(loaded(m2.registers, m2.memory, m.i as int, x as int) =~= m.registers);
}

/// The execution engine: memory, registers, program counter, index register
/// and call stack, under a fixed configuration. The pixel grid, the timers and
/// the keypad are shared with other parts of the host and are handed to each
/// step.
#[derive(Debug)]
pub struct Chip8 {
    config: Config,
    memory: Memory,
    pc: usize,
    i: u16,
    stack: Vec<usize>,
    registers: Registers,
}

impl View for Chip8 {
    type V = MachineState;

    closed spec fn view(&self) -> MachineState {
        MachineState {
            config: self.config,
            memory: self.memory@,
            registers: self.registers@,
            pc: self.pc,
            i: self.i,
            stack: self.stack@,
        }
    }
}

impl Chip8 {
    /// A fresh engine: memory holds the font only, registers are zero, the
    /// program counter and the index register are at zero and the stack is
    /// empty.
    pub fn new(config: Config) -> (r: Self)
        ensures
            r@ == (MachineState {
                config,
                memory: initial_memory(),
                registers: Seq::new(NUM_REGISTERS as nat, |k: int| 0u8),
                pc: 0,
                i: 0,
                stack: Seq::empty(),
            }),
    {
        let r = Self {
            config,
            memory: Memory::new(),
            pc: 0,
            i: 0,
            stack: Vec::new(),
            registers: Registers::new(),
        };
        assert(r@.registers =~= Seq::new(NUM_REGISTERS as nat, |k: int| 0u8));
        r
    }

    /// Every engine has the shape that `MachineState::wf` describes.
    pub proof fn lemma_view_wf(&self)
        ensures
            self@.wf(),
    {
        self.memory.lemma_len();
    }

    pub fn config(&self) -> (r: Config)
        ensures
            r == self@.config,
    {
        self.config
    }

    pub fn pc(&self) -> (r: usize)
        ensures
            r == self@.pc,
    {
        self.pc
    }

    /// The index register.
    pub fn index(&self) -> (r: usize)
        ensures
            r == self@.i,
    {
        self.i as usize
    }

    pub fn registers(&self) -> (r: &Registers)
        ensures
            r@ == self@.registers,
    {
        &self.registers
    }

    pub fn memory(&self) -> (r: &Memory)
        ensures
            r@ == self@.memory,
    {
        &self.memory
    }

    /// Number of return addresses on the call stack.
    pub fn stack_depth(&self) -> (r: usize)
        ensures
            r == self@.stack.len(),
    {
        self.stack.len()
    }

    /// Places a program in memory; see `Memory::load_bytes_at`.
    pub fn load_bytes_at(&mut self, address: usize, bytes: &[u8]) -> (r: Result<(), LoadError>)
        ensures
            r == load_check(address as int, bytes@.len() as int),
            r is Err ==> final(self)@ == old(self)@,
            r is Ok ==> final(self)@ == (MachineState {
                memory: old(self)@.memory.take(address as int) + bytes@ + old(self)@.memory.skip(
                    address + bytes@.len(),
                ),
                ..old(self)@
            }),
    {
        self.memory.load_bytes_at(address, bytes)
    }

    /// Moves the program counter, typically to the program's entry point.
    pub fn set_pc(&mut self, pc: usize)
        ensures
            final(self)@ == old(self)@.with_pc(pc),
    {
        self.pc = pc;
    }

    /// The instruction at the program counter, without moving past it.
    pub fn peek_instr(&self) -> (r: Option<Instr>)
        ensures
            r == fetch_spec(self@),
    {
        proof {
            self.memory.lemma_len();
        }
        if self.pc < MEMORY_SIZE - 1 {
            Some(Instr::new(self.memory.get(self.pc), self.memory.get(self.pc + 1)))
        } else {
            None
        }
    }

    /// Reads the instruction at the program counter and moves the counter past
    /// it. A counter that does not point at two bytes of memory is a fault,
    /// and then nothing changes.
    pub fn fetch(&mut self) -> (r: Result<Instr, Fault>)
        ensures
            match fetch_spec(old(self)@) {
                Some(instr) => r == Ok::<Instr, Fault>(instr) && final(self)@ == old(self)@.with_pc(
                    (old(self)@.pc + 2) as usize,
                ),
                None => r == Err::<Instr, Fault>(Fault::ProgramCounterOutOfRange { pc: old(self)@.pc })
                    && final(self)@ == old(self)@,
            },
    {
        proof {
            self.memory.lemma_len();
        }
        if self.pc >= MEMORY_SIZE - 1 {
            return Err(Fault::ProgramCounterOutOfRange { pc: self.pc });
        }
        let instr = Instr::new(self.memory.get(self.pc), self.memory.get(self.pc + 1));
        self.pc += 2;
        Ok(instr)
    }
    /// One full cycle with a given random byte: fetch the instruction at the
    /// program counter, move past it and execute it. `rnd` is used by `Cxnn`
    /// only. On a fault the engine, the grid and the timers are left as the
    /// fetch left them.
    pub fn step_with(&mut self, screen: &mut Screen, timers: &mut Timers, keys: &Keys, rnd: u8) -> (r:
        Result<(), Fault>)
        ensures
            (final(self)@, final(screen)@, *final(timers), r) == step_spec(
                old(self)@,
                old(screen)@,
                *old(timers),
                keys@,
                rnd,
            ),
    {
        let instr = match self.fetch() {
            Ok(instr) => instr,
            Err(f) => {
                return Err(f);
            },
        };
        self.execute(instr, screen, timers, keys, rnd)
    }

    /// One full cycle. When the instruction is `Cxnn`, its random byte is drawn
    /// from the thread-local generator; whatever byte that is, the outcome is
    /// the one `step_spec` gives for it.
    pub fn execute_instr(&mut self, screen: &mut Screen, timers: &mut Timers, keys: &Keys) -> (r:
        Result<(), Fault>)
        ensures
            exists|rnd: u8|
                (final(self)@, final(screen)@, *final(timers), r) == #[trigger] step_spec(
                    old(self)@,
                    old(screen)@,
                    *old(timers),
                    keys@,
                    rnd,
                ),
    {
        let mut rnd: u8 = 0;
        if let Some(instr) = self.peek_instr() {
            if let Op::Random { .. } = instr.decode() {
                rnd = random_byte();
            }
        }
        self.step_with(screen, timers, keys, rnd)
    }

    /// Executes an instruction of the `alu_spec` family.
    fn exec_alu(&mut self, op: Op)
        requires
            is_alu(op),
            op.operands_in_range(),
        ensures
            final(self)@ == alu_spec(old(self)@, op),
    {
        match op {
            Op::SetImmediate { x, value } => {
                self.registers.set(x, value);
            },
            Op::AddImmediate { x, value } => {
                let v = self.registers.get(x).wrapping_add(value);
                *self.registers.get_mut(x) = v;
            },
            Op::Copy { x, y } => {
                let v = self.registers.get(y);
                *self.registers.get_mut(x) = v;
            },
            Op::Or { x, y } => {
                let v = self.registers.get(y);
                *self.registers.get_mut(x) |= v;
                self.registers.set(FLAG, 0);
            },
            Op::And { x, y } => {
                let v = self.registers.get(y);
                *self.registers.get_mut(x) &= v;
                self.registers.set(FLAG, 0);
            },
            Op::Xor { x, y } => {
                let v = self.registers.get(y);
                *self.registers.get_mut(x) ^= v;
                self.registers.set(FLAG, 0);
            },
            Op::AddWithCarry { x, y } => {
                let a = self.registers.get(x);
                let b = self.registers.get(y);
                self.registers.set(x, a.wrapping_add(b));
                self.registers.set(FLAG, if a as u16 + b as u16 > 255 { 1 } else { 0 });
            },
            Op::Subtract { x, y } => {
                let a = self.registers.get(x);
                let b = self.registers.get(y);
                self.registers.set(x, a.wrapping_sub(b));
                self.registers.set(FLAG, if a >= b { 1 } else { 0 });
            },
            Op::SubtractFrom { x, y } => {
                let a = self.registers.get(x);
                let b = self.registers.get(y);
                self.registers.set(x, b.wrapping_sub(a));
                self.registers.set(FLAG, if b >= a { 1 } else { 0 });
            },
            Op::ShiftRight { x, y } => {
                if self.config.bitshift_copies_y {
                    let v = self.registers.get(y);
                    self.registers.set(x, v);
                }
                let n = self.registers.get(x);
                assert(n >> 1 == n / 2 && n & 1 == n % 2) by (bit_vector);
                self.registers.set(x, n >> 1);
                self.registers.set(FLAG, n & 1);
            },
            Op::ShiftLeft { x, y } => {
                if self.config.bitshift_copies_y {
                    let v = self.registers.get(y);
                    self.registers.set(x, v);
                }
                let n = self.registers.get(x);
                assert((n << 1) == ((n * 2) % 256) as u8 && ((n & 0x80 != 0) == (n >= 128)))
                    by (bit_vector);
                self.registers.set(x, n << 1);
                self.registers.set(FLAG, if n & 0x80 != 0 { 1 } else { 0 });
            },
            _ => {},
        }
    }

    /// Executes an instruction of the `control_spec` family; on a fault
    /// nothing changes.
    fn exec_control(&mut self, op: Op) -> (r: Result<(), Fault>)
        requires
            is_control(op),
            op.operands_in_range(),
            old(self)@.pc <= MEMORY_SIZE,
        ensures
            match control_spec(old(self)@, op) {
                Ok(m) => r == Ok::<(), Fault>(()) && final(self)@ == m,
                Err(f) => r == Err::<(), Fault>(f) && final(self)@ == old(self)@,
            },
    {
        match op {
            Op::Return => {
                match self.stack.pop() {
                    Some(address) => {
                        self.pc = address;
                    },
                    None => {
                        return Err(Fault::StackUnderflow);
                    },
                }
            },
            Op::Jump { address } => {
                self.pc = address;
            },
            Op::Call { address } => {
                self.stack.push(self.pc);
                self.pc = address;
            },
            Op::SkipIfEqual { x, value } => {
                if self.registers.get(x) == value {
                    self.pc += 2;
                }
            },
            Op::SkipIfNotEqual { x, value } => {
                if self.registers.get(x) != value {
                    self.pc += 2;
                }
            },
            Op::SkipIfRegistersEqual { x, y } => {
                if self.registers.get(x) == self.registers.get(y) {
                    self.pc += 2;
                }
            },
            Op::SkipIfRegistersNotEqual { x, y } => {
                if self.registers.get(x) != self.registers.get(y) {
                    self.pc += 2;
                }
            },
            Op::SetIndex { address } => {
                self.i = address as u16;
            },
            Op::JumpWithOffset { x, address } => {
                let offset = if self.config.jump_with_offset_register {
                    self.registers.get(x)
                } else {
                    self.registers.get(0)
                };
                self.pc = address + offset as usize;
            },
            Op::AddToIndex { x } => {
                let sum = self.i as usize + self.registers.get(x) as usize;
                if sum >= MEMORY_SIZE {
                    self.i = (sum % MEMORY_SIZE) as u16;
                    self.registers.set(FLAG, 1);
                } else {
                    self.i = sum as u16;
                }
            },
            Op::FontCharacter { x } => {
                let v = self.registers.get(x);
                assert(v & 0x0F == v % 16) by (bit_vector);
                let ch = v & 0x0F;
                self.i = (FONT_START + ch as usize * GLYPH_SIZE) as u16;
            },
            _ => {},
        }
        Ok(())
    }

    /// Executes an instruction of the `transfer_spec` family; on a fault
    /// nothing changes.
    fn exec_transfer(&mut self, op: Op) -> (r: Result<(), Fault>)
        requires
            is_transfer(op),
            op.operands_in_range(),
        ensures
            match transfer_spec(old(self)@, op) {
                Ok(m) => r == Ok::<(), Fault>(()) && final(self)@ == m,
                Err(f) => r == Err::<(), Fault>(f) && final(self)@ == old(self)@,
            },
    {
        proof {
            self.memory.lemma_len();
        }
        let ghost m = self@;
        match op {
            Op::DecimalDigits { x } => {
                if self.i as usize + 2 >= MEMORY_SIZE {
                    return Err(Fault::IndexOutOfRange { index: self.i as usize });
                }
                let i = self.i as usize;
                let mut n = self.registers.get(x);
                self.memory.set(i, n / 100);
                n %= 100;
                self.memory.set(i + 1, n / 10);
                self.memory.set(i + 2, n % 10);
            },
            Op::StoreRegisters { x } => {
                if self.i as usize + x as usize >= MEMORY_SIZE {
                    return Err(Fault::IndexOutOfRange { index: self.i as usize });
                }
                let i = self.i as usize;
                let mut d: u8 = 0;
                while d <= x
                    invariant
                        x < NUM_REGISTERS,
                        d <= x + 1,
                        i + x < MEMORY_SIZE,
                        i == m.i,
                        m.memory.len() == MEMORY_SIZE,
                        self@ == (MachineState { memory: self@.memory, ..m }),
                        self@.memory == stored(m.memory, m.registers, i as int, d - 1),
                    decreases x + 1 - d,
                {
                    proof {
                        self.memory.lemma_len();
                    }
                    let v = self.registers.get(d);
                    self.memory.set(i + d as usize, v);
                    d += 1;
                    assert(self@.memory =~= stored(m.memory, m.registers, i as int, d - 1));
                }
                if self.config.update_i_after_store_or_load {
                    self.i += x as u16 + 1;
                }
            },
            Op::LoadRegisters { x } => {
                if self.i as usize + x as usize >= MEMORY_SIZE {
                    return Err(Fault::IndexOutOfRange { index: self.i as usize });
                }
                let i = self.i as usize;
                let mut d: u8 = 0;
                while d <= x
                    invariant
                        x < NUM_REGISTERS,
                        d <= x + 1,
                        i + x < MEMORY_SIZE,
                        i == m.i,
                        m.memory.len() == MEMORY_SIZE,
                        self@ == (MachineState { registers: self@.registers, ..m }),
                        self@.registers == loaded(m.registers, m.memory, i as int, d - 1),
                    decreases x + 1 - d,
                {
                    let v = self.memory.get(i + d as usize);
                    self.registers.set(d, v);
                    d += 1;
                    assert(self@.registers =~= loaded(m.registers, m.memory, i as int, d - 1));
                }
                if self.config.update_i_after_store_or_load {
                    self.i += x as u16 + 1;
                }
            },
            _ => {},
        }
        Ok(())
    }

    /// Executes one instruction, the program counter already past it. On a
    /// fault nothing changes.
    fn execute(
        &mut self,
        instr: Instr,
        screen: &mut Screen,
        timers: &mut Timers,
        keys: &Keys,
        rnd: u8,
    ) -> (r: Result<(), Fault>)
        requires
            2 <= old(self)@.pc <= MEMORY_SIZE,
        ensures
            (final(self)@, final(screen)@, *final(timers), r) == exec_outcome(
                old(self)@,
                instr,
                old(screen)@,
                *old(timers),
                keys@,
                rnd,
            ),
    {
        proof {
            self.memory.lemma_len();
        }
        let ghost m = self@;
        let op = instr.decode();
        if is_alu_op(&op) {
            self.exec_alu(op);
            return Ok(());
        }
        if is_control_op(&op) {
            return self.exec_control(op);
        }
        if is_transfer_op(&op) {
            return self.exec_transfer(op);
        }
        match op {
            Op::ClearScreen => {
                screen.clear();
            },
            Op::Random { x, mask } => {
                self.registers.set(x, rnd & mask);
            },
            Op::Draw { x, y, rows } => {
                let x0 = self.registers.get(x) % 64;
                let y0 = self.registers.get(y) % 32;
                let drawn = if rows < 32 - y0 {
                    rows
                } else {
                    32 - y0
                };
                if self.i as usize + drawn as usize > MEMORY_SIZE {
                    return Err(Fault::IndexOutOfRange { index: self.i as usize });
                }
                self.registers.set(FLAG, 0);
                let hit = draw_sprite(screen, &self.memory, self.i as usize, x0, y0, rows);
                if hit {
                    self.registers.set(FLAG, 1);
                }
                assert(self.registers@ =~= m.with_flag(flag_of(hit)).registers);
            },
            Op::SkipIfKey { x } => {
                if keys.get(self.registers.get(x)) {
                    self.pc += 2;
                }
            },
            Op::SkipIfNotKey { x } => {
                if !keys.get(self.registers.get(x)) {
                    self.pc += 2;
                }
            },
            Op::ReadDelayTimer { x } => {
                self.registers.set(x, timers.delay_timer);
            },
            Op::WaitForKey { x } => {
                match keys.first_down() {
                    Some(k) => {
                        self.registers.set(x, k);
                    },
                    None => {
                        self.pc -= 2;
                    },
                }
            },
            Op::SetDelayTimer { x } => {
                timers.delay_timer = self.registers.get(x);
            },
            Op::SetSoundTimer { x } => {
                timers.sound_timer = self.registers.get(x);
            },
            Op::MachineCode { .. } => {
                return Err(Fault::MachineCode { word: instr.word() });
            },
            _ => {
                return Err(Fault::UnknownInstruction { word: instr.word() });
            },
        }
        Ok(())
    }
}

/// Relies on `rand::random::<u8>`: a byte from the thread-local generator.
/// Any byte may come back.
#[verifier::external_body]
fn random_byte() -> u8 {
    rand::random::<u8>()
}

/// Executable test for `is_alu`.
fn is_alu_op(op: &Op) -> (r: bool)
    ensures
        r == is_alu(*op),
{
    match op {
        Op::SetImmediate { .. } | Op::AddImmediate { .. } | Op::Copy { .. } | Op::Or { .. }
        | Op::And { .. } | Op::Xor { .. } | Op::AddWithCarry { .. } | Op::Subtract { .. }
        | Op::SubtractFrom { .. } | Op::ShiftRight { .. } | Op::ShiftLeft { .. } => true,
        _ => false,
    }
}

/// Executable test for `is_control`.
fn is_control_op(op: &Op) -> (r: bool)
    ensures
        r == is_control(*op),
{
    match op {
        Op::Return | Op::Jump { .. } | Op::Call { .. } | Op::SkipIfEqual { .. }
        | Op::SkipIfNotEqual { .. } | Op::SkipIfRegistersEqual { .. }
        | Op::SkipIfRegistersNotEqual { .. } | Op::SetIndex { .. } | Op::JumpWithOffset { .. }
        | Op::AddToIndex { .. } | Op::FontCharacter { .. } => true,
        _ => false,
    }
}

/// Executable test for `is_transfer`.
fn is_transfer_op(op: &Op) -> (r: bool)
    ensures
        r == is_transfer(*op),
{
    match op {
        Op::DecimalDigits { .. } | Op::StoreRegisters { .. } | Op::LoadRegisters { .. } => true,
        _ => false,
    }
}

} // verus!
