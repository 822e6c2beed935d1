use vstd::prelude::*;

use crate::config::{FB_LEN, FONT_POS_START, MEMSIZE, PROG_POS_START, Quirks, SCREEN_HEIGHT,
    SCREEN_WIDTH};
use crate::display::{all_off, blit, blit_collision, fb_clear, fb_draw_sprite, fb_set_pixel,
    fb_index};
use crate::error::ChipError;
use crate::inst::{hex_to_inst, spec_decode, Inst};

verus! {

/// The mathematical model of the whole machine: what every contract in this
/// module speaks about. `Chip::view` maps the executable machine onto it.
#[verifier::ext_equal]
pub struct State {
    /// The 4096 addressable memory bytes.
    pub mem: Seq<u8>,
    /// The program counter: address of the next opcode to fetch.
    pub pc: u16,
    /// The sixteen general registers V0..=VF.
    pub regs: Seq<u8>,
    /// The 16-bit index register.
    pub i: u16,
    /// The sixteen call-stack slots; only those below `sp` are live.
    pub stack: Seq<u16>,
    /// The stack pointer: number of live stack slots.
    pub sp: u8,
    /// The delay timer.
    pub delay: u8,
    /// The sound timer.
    pub sound: u8,
    /// The sixteen key states, true while a key is held down.
    pub keys: Seq<bool>,
    /// The framebuffer cells, row-major: cell `fb_index(x, y)` is pixel (x, y).
    pub fb: Seq<bool>,
    /// When `Some(x)`, execution is suspended until a key press is observed,
    /// whose value will be committed to register x.
    pub waiting: Option<u8>,
    /// The configured behaviour variation points.
    pub quirks: Quirks,
}

impl State {
    /// Structural soundness of a machine state: collection sizes, pointer
    /// ranges, and every live address within memory. Established by
    /// `Chip::new` and preserved by every operation.
    pub open spec fn wf(self) -> bool {
        &&& self.mem.len() == MEMSIZE
        &&& self.regs.len() == 16
        &&& self.stack.len() == 16
        &&& self.sp <= 16
        &&& self.keys.len() == 16
        &&& self.fb.len() == FB_LEN
        &&& self.pc < MEMSIZE
        &&& self.i < MEMSIZE
        &&& forall|k: int| 0 <= k < 16 ==> self.stack[k] < MEMSIZE
        &&& (self.waiting matches Some(x) ==> x < 16)
    }
}

/// An address computation wrapped into the 4096-byte memory: the single
/// overflow policy applied by every address-producing instruction.
pub open spec fn wrap_addr(a: int) -> u16 {
    (a % 4096) as u16
}

/// Byte addition, wrapping modulo 256.
pub open spec fn byte_add(a: u8, b: u8) -> u8 {
    ((a + b) % 256) as u8
}

/// Byte subtraction, wrapping modulo 256.
pub open spec fn byte_sub(a: u8, b: u8) -> u8 {
    ((a + 256 - b) % 256) as u8
}

/// Whether the key selected by register value `v` is down; values above the
/// 16-key keypad never count as pressed.
pub open spec fn key_down(keys: Seq<bool>, v: u8) -> bool {
    v < 16 && keys[v as int]
}

/// The lowest-numbered pressed key at or above index `k`, if any.
pub open spec fn first_pressed_from(keys: Seq<bool>, k: int) -> Option<u8>
    decreases 16 - k,
{
    if k < 0 || k >= 16 {
        None
    } else if keys[k] {
        Some(k as u8)
    } else {
        first_pressed_from(keys, k + 1)
    }
}

/// The lowest-numbered pressed key, if any: the key a suspended machine
/// commits when it resumes.
pub open spec fn first_pressed(keys: Seq<bool>) -> Option<u8> {
    first_pressed_from(keys, 0)
}

/// The standard 80-byte font: glyphs for the hex digits 0..=F, five bytes
/// each, resident at FONT_POS_START from initialization on.
pub open spec fn font_table() -> Seq<u8> {
    seq![
        0xF0u8, 0x90, 0x90, 0x90, 0xF0, // 0
        0x20, 0x60, 0x20, 0x20, 0x70, // 1
        0xF0, 0x10, 0xF0, 0x80, 0xF0, // 2
        0xF0, 0x10, 0xF0, 0x10, 0xF0, // 3
        0x90, 0x90, 0xF0, 0x10, 0x10, // 4
        0xF0, 0x80, 0xF0, 0x10, 0xF0, // 5
        0xF0, 0x80, 0xF0, 0x90, 0xF0, // 6
        0xF0, 0x10, 0x20, 0x40, 0x40, // 7
        0xF0, 0x90, 0xF0, 0x90, 0xF0, // 8
        0xF0, 0x90, 0xF0, 0x10, 0xF0, // 9
        0xF0, 0x90, 0xF0, 0x90, 0x90, // A
        0xE0, 0x90, 0xE0, 0x90, 0xE0, // B
        0xF0, 0x80, 0x80, 0x80, 0xF0, // C
        0xE0, 0x90, 0x90, 0x90, 0xE0, // D
        0xF0, 0x80, 0xF0, 0x80, 0xF0, // E
        0xF0, 0x80, 0xF0, 0x80, 0x80, // F
    ]
}

/// The memory of a machine fresh out of `Chip::new`: all zero except the
/// font table.
pub open spec fn initial_memory() -> Seq<u8> {
    Seq::new(
        MEMSIZE as nat,
        |j: int|
            if FONT_POS_START <= j < FONT_POS_START + 80 {
                font_table()[j - FONT_POS_START]
            } else {
                0u8
            },
    )
}

/// The machine state right after `Chip::new`: font loaded, program counter
/// at the program load address, everything else zeroed, no quirks enabled.
pub open spec fn initial_state() -> State {
    State {
        mem: initial_memory(),
        pc: PROG_POS_START,
        regs: Seq::new(16, |k: int| 0u8),
        i: 0u16,
        stack: Seq::new(16, |k: int| 0u16),
        sp: 0u8,
        delay: 0u8,
        sound: 0u8,
        keys: Seq::new(16, |k: int| false),
        fb: all_off(),
        waiting: None::<u8>,
        quirks: Quirks { vf_reset: false, shift_vy: false, increment_i: false },
    }
}

/// The `n` sprite rows in memory at the index register, each address
/// wrapped into memory.
pub open spec fn sprite_rows(mem: Seq<u8>, i: u16, n: int) -> Seq<u8> {
    Seq::new(n as nat, |k: int| mem[wrap_addr(i + k) as int])
}

/// Memory after storing registers 0..=x at consecutive wrapped addresses
/// from `i` on.
pub open spec fn store_regs(mem: Seq<u8>, regs: Seq<u8>, i: u16, x: int) -> Seq<u8>
    decreases x + 1,
{
    if x < 0 {
        mem
    } else {
        store_regs(mem, regs, i, x - 1).update(wrap_addr(i + x) as int, regs[x])
    }
}

/// Registers after loading slots 0..=x from consecutive wrapped addresses
/// from `i` on.
pub open spec fn load_regs(mem: Seq<u8>, regs: Seq<u8>, i: u16, x: int) -> Seq<u8>
    decreases x + 1,
{
    if x < 0 {
        regs
    } else {
        load_regs(mem, regs, i, x - 1).update(x, mem[wrap_addr(i + x) as int])
    }
}

/// Register file after a bitwise logic instruction wrote `val` to Vx: with
/// the `vf_reset` quirk on, VF is cleared afterwards.
pub open spec fn logic_regs(regs: Seq<u8>, q: Quirks, vx: u8, val: u8) -> Seq<u8> {
    if q.vf_reset {
        regs.update(vx as int, val).update(15, 0u8)
    } else {
        regs.update(vx as int, val)
    }
}

/// The opcode at the program counter: two bytes, big-endian, the second
/// address wrapped into memory.
pub open spec fn spec_fetch(s: State) -> u16 {
    ((s.mem[s.pc as int] as u16) << 8u16) | (s.mem[wrap_addr(s.pc + 1) as int] as u16)
}

/// The effect of one decoded instruction on the machine state, given the
/// random byte `rnd` that a RND instruction would consume. `Err` means a
/// fatal condition and no state change. Skips land `pc + 4`; jumps, calls
/// and returns set the program counter directly; everything else advances
/// by two. All address arithmetic wraps modulo the memory size.
pub open spec fn spec_exec_inst(s: State, inst: Inst, rnd: u8) -> Result<State, ChipError> {
    let pc2 = wrap_addr(s.pc + 2);
    let pc4 = wrap_addr(s.pc + 4);
    match inst {
        Inst::Empty => Ok(State { pc: pc2, ..s }),
        Inst::Cls => Ok(State { pc: pc2, fb: all_off(), ..s }),
        Inst::Ret => if s.sp == 0 {
            Err(ChipError::StackUnderflow)
        } else {
            Ok(State { pc: s.stack[s.sp - 1], sp: (s.sp - 1) as u8, ..s })
        },
        Inst::Jmp { addr } => Ok(State { pc: addr, ..s }),
        Inst::Call { addr } => if s.sp >= 16 {
            Err(ChipError::StackOverflow)
        } else {
            Ok(State {
                stack: s.stack.update(s.sp as int, pc2),
                sp: (s.sp + 1) as u8,
                pc: addr,
                ..s
            })
        },
        Inst::SV { vx, byte } => Ok(State {
            pc: if s.regs[vx as int] == byte { pc4 } else { pc2 },
            ..s
        }),
        Inst::SnV { vx, byte } => Ok(State {
            pc: if s.regs[vx as int] != byte { pc4 } else { pc2 },
            ..s
        }),
        Inst::SR { vx, vy } => Ok(State {
            pc: if s.regs[vx as int] == s.regs[vy as int] { pc4 } else { pc2 },
            ..s
        }),
        Inst::LdV { vx, byte } => Ok(State {
            regs: s.regs.update(vx as int, byte),
            pc: pc2,
            ..s
        }),
        Inst::AddV { vx, byte } => Ok(State {
            regs: s.regs.update(vx as int, byte_add(s.regs[vx as int], byte)),
            pc: pc2,
            ..s
        }),
        Inst::LdR { vx, vy } => Ok(State {
            regs: s.regs.update(vx as int, s.regs[vy as int]),
            pc: pc2,
            ..s
        }),
        Inst::OrR { vx, vy } => Ok(State {
            regs: logic_regs(s.regs, s.quirks, vx, s.regs[vx as int] | s.regs[vy as int]),
            pc: pc2,
            ..s
        }),
        Inst::AndR { vx, vy } => Ok(State {
            regs: logic_regs(s.regs, s.quirks, vx, s.regs[vx as int] & s.regs[vy as int]),
            pc: pc2,
            ..s
        }),
        Inst::XorR { vx, vy } => Ok(State {
            regs: logic_regs(s.regs, s.quirks, vx, s.regs[vx as int] ^ s.regs[vy as int]),
            pc: pc2,
            ..s
        }),
        Inst::AddR { vx, vy } => Ok(State {
            regs: s.regs.update(vx as int, byte_add(s.regs[vx as int], s.regs[vy as int])).update(
                15,
                if s.regs[vx as int] + s.regs[vy as int] > 255 { 1u8 } else { 0u8 },
            ),
            pc: pc2,
            ..s
        }),
        Inst::SubR { vx, vy } => Ok(State {
            regs: s.regs.update(vx as int, byte_sub(s.regs[vx as int], s.regs[vy as int])).update(
                15,
                if s.regs[vx as int] >= s.regs[vy as int] { 1u8 } else { 0u8 },
            ),
            pc: pc2,
            ..s
        }),
        Inst::Shr { vx, vy } => ({
            let src = if s.quirks.shift_vy { s.regs[vy as int] } else { s.regs[vx as int] };
            Ok(State {
                regs: s.regs.update(vx as int, (src / 2) as u8).update(15, (src % 2) as u8),
                pc: pc2,
                ..s
            })
        }),
        Inst::SubnR { vx, vy } => Ok(State {
            regs: s.regs.update(vx as int, byte_sub(s.regs[vy as int], s.regs[vx as int])).update(
                15,
                if s.regs[vy as int] >= s.regs[vx as int] { 1u8 } else { 0u8 },
            ),
            pc: pc2,
            ..s
        }),
        Inst::Shl { vx, vy } => ({
            let src = if s.quirks.shift_vy { s.regs[vy as int] } else { s.regs[vx as int] };
            Ok(State {
                regs: s.regs.update(vx as int, ((src * 2) % 256) as u8).update(
                    15,
                    (src / 128) as u8,
                ),
                pc: pc2,
                ..s
            })
        }),
        Inst::SnR { vx, vy } => Ok(State {
            pc: if s.regs[vx as int] != s.regs[vy as int] { pc4 } else { pc2 },
            ..s
        }),
        Inst::LdI { addr } => Ok(State { i: addr, pc: pc2, ..s }),
        Inst::JpV0 { addr } => Ok(State { pc: wrap_addr(addr + s.regs[0]), ..s }),
        Inst::Rnd { vx, byte } => Ok(State {
            regs: s.regs.update(vx as int, rnd & byte),
            pc: pc2,
            ..s
        }),
        Inst::Disp { vx, vy, n } => ({
            let sprite = sprite_rows(s.mem, s.i, n as int);
            let x0 = (s.regs[vx as int] as int) % 64;
            let y0 = (s.regs[vy as int] as int) % 32;
            let coll = blit_collision(s.fb, x0, y0, sprite);
            Ok(State {
                fb: blit(s.fb, x0, y0, sprite),
                regs: s.regs.update(15, if coll { 1u8 } else { 0u8 }),
                pc: pc2,
                ..s
            })
        }),
        Inst::SKp { vx } => Ok(State {
            pc: if key_down(s.keys, s.regs[vx as int]) { pc4 } else { pc2 },
            ..s
        }),
        Inst::SKnp { vx } => Ok(State {
            pc: if !key_down(s.keys, s.regs[vx as int]) { pc4 } else { pc2 },
            ..s
        }),
        Inst::LdRDt { vx } => Ok(State {
            regs: s.regs.update(vx as int, s.delay),
            pc: pc2,
            ..s
        }),
        Inst::LdRKp { vx } => Ok(State { waiting: Some(vx), ..s }),
        Inst::LdDtR { vx } => Ok(State { delay: s.regs[vx as int], pc: pc2, ..s }),
        Inst::LdStR { vx } => Ok(State { sound: s.regs[vx as int], pc: pc2, ..s }),
        Inst::AddRI { vx } => Ok(State {
            i: wrap_addr(s.i + s.regs[vx as int]),
            pc: pc2,
            ..s
        }),
        Inst::LdIF { vx } => if s.regs[vx as int] > 15 {
            Err(ChipError::InvalidFontDigit)
        } else {
            Ok(State {
                i: (FONT_POS_START + 5 * s.regs[vx as int]) as u16,
                pc: pc2,
                ..s
            })
        },
        Inst::LdBCDR { vx } => ({
            let v = s.regs[vx as int];
            Ok(State {
                mem: s.mem.update(s.i as int, (v / 100) as u8).update(
                    wrap_addr(s.i + 1) as int,
                    ((v / 10) % 10) as u8,
                ).update(wrap_addr(s.i + 2) as int, (v % 10) as u8),
                pc: pc2,
                ..s
            })
        }),
        Inst::LdIR { vx } => Ok(State {
            mem: store_regs(s.mem, s.regs, s.i, vx as int),
            i: if s.quirks.increment_i { wrap_addr(s.i + vx + 1) } else { s.i },
            pc: pc2,
            ..s
        }),
        Inst::LdRI { vx } => Ok(State {
            regs: load_regs(s.mem, s.regs, s.i, vx as int),
            i: if s.quirks.increment_i { wrap_addr(s.i + vx + 1) } else { s.i },
            pc: pc2,
            ..s
        }),
    }
}

/// One driver-initiated step. A machine suspended on key-wait does not
/// fetch: it resumes, committing the lowest pressed key, only once some key
/// is down, and otherwise stays put. A running machine fetches the opcode
/// at the program counter, decodes it and executes it.
pub open spec fn spec_step(s: State, rnd: u8) -> Result<State, ChipError> {
    match s.waiting {
        Some(x) => match first_pressed(s.keys) {
            Some(k) => Ok(State {
                regs: s.regs.update(x as int, k),
                waiting: None::<u8>,
                pc: wrap_addr(s.pc + 2),
                ..s
            }),
            None => Ok(s),
        },
        None => match spec_decode(spec_fetch(s)) {
            Ok(inst) => spec_exec_inst(s, inst, rnd),
            Err(e) => Err(e),
        },
    }
}

/// How a step's outcome relates the state before, the random byte consumed,
/// the state after and the reported result: on success the machine moved to
/// exactly the state `spec_step` gives; on a fatal condition the error is
/// reported and the machine is untouched.
pub open spec fn step_matches(pre: State, rnd: u8, post: State, r: Result<(), ChipError>) -> bool {
    match spec_step(pre, rnd) {
        Ok(s2) => r == Ok::<(), ChipError>(()) && post == s2,
        Err(e) => r == Err::<(), ChipError>(e) && post == pre,
    }
}

/// The CHIP-8 machine: memory, registers, index register, program counter,
/// call stack, timers, key states and framebuffer, owned as one aggregate
/// and mutated only through `execute_inst` / `step_with_random`,
/// the timer ticks and `set_key_state`.
pub struct Chip {
    /// The 4096 addressable memory bytes.
    pub memory: Vec<u8>,
    /// The program counter.
    pub pc: u16,
    /// The sixteen general registers.
    pub registers: Vec<u8>,
    /// The index register.
    pub i: u16,
    /// The call-stack slots.
    pub stack: Vec<u16>,
    /// The stack pointer.
    pub stackpointer: u8,
    /// The delay timer.
    pub delay_timer: u8,
    /// The sound timer.
    pub sound_timer: u8,
    /// The sixteen key states.
    pub keymap: Vec<bool>,
    /// The framebuffer cells, row-major.
    pub display_buffer: Vec<bool>,
    /// The suspended-on-key-wait marker.
    pub waiting_for_key: Option<u8>,
    /// The configured behaviour variation points.
    pub quirks: Quirks,
}

impl View for Chip {
    type V = State;

    open spec fn view(&self) -> State {
        State {
            mem: self.memory@,
            pc: self.pc,
            regs: self.registers@,
            i: self.i,
            stack: self.stack@,
            sp: self.stackpointer,
            delay: self.delay_timer,
            sound: self.sound_timer,
            keys: self.keymap@,
            fb: self.display_buffer@,
            waiting: self.waiting_for_key,
            quirks: self.quirks,
        }
    }
}

/// A vector of `len` copies of `val`.
fn filled<T: Copy>(len: usize, val: T) -> (v: Vec<T>)
    ensures
        v@.len() == len,
        forall|k: int| 0 <= k < len ==> v@[k] == val,
{
    let mut v: Vec<T> = Vec::new();
    let mut n: usize = 0;
    while n < len
        invariant
            v@.len() == n,
            n <= len,
            forall|k: int| 0 <= k < n ==> v@[k] == val,
        decreases len - n,
    {
        v.push(val);
        n += 1;
    }
    v
}

impl Chip {
    /// A fresh machine: zeroed memory with the font table loaded, program
    /// counter at the program load address, empty stack, timers at zero, no
    /// key down, screen off, default quirks.
    pub fn new() -> (c: Chip)
        ensures
            c@ == initial_state(),
            c@.wf(),
    {
        let mut c = Chip {
            memory: filled(MEMSIZE, 0u8),
            pc: PROG_POS_START,
            registers: filled(16, 0u8),
            i: 0,
            stack: filled(16, 0u16),
            stackpointer: 0,
            delay_timer: 0,
            sound_timer: 0,
            keymap: filled(16, false),
            display_buffer: filled(FB_LEN, false),
            waiting_for_key: None,
            quirks: Quirks::default(),
        };
        c.load_font();
        proof {
            assert(c@.mem =~= initial_memory());
            assert(c@.regs =~= initial_state().regs);
            assert(c@.stack =~= initial_state().stack);
            assert(c@.keys =~= initial_state().keys);
            assert(c@.fb =~= all_off());
            assert(c@ =~= initial_state());
        }
        c
    }

    /// Write the font table at FONT_POS_START, leaving all other memory and
    /// every other part of the state untouched.
    fn load_font(&mut self)
        requires
            old(self)@.mem.len() == MEMSIZE,
        ensures
            final(self)@ == (State { mem: final(self)@.mem, ..old(self)@ }),
            final(self)@.mem.len() == MEMSIZE,
            forall|j: int|
                0 <= j < MEMSIZE && !(FONT_POS_START <= j < FONT_POS_START + 80)
                    ==> final(self)@.mem[j] == old(self)@.mem[j],
            forall|k: int| 0 <= k < 80 ==> final(self)@.mem[FONT_POS_START + k] == font_table()[k],
    {
        let font: Vec<u8> = vec![
            0xF0, 0x90, 0x90, 0x90, 0xF0, // 0
            0x20, 0x60, 0x20, 0x20, 0x70, // 1
            0xF0, 0x10, 0xF0, 0x80, 0xF0, // 2
            0xF0, 0x10, 0xF0, 0x10, 0xF0, // 3
            0x90, 0x90, 0xF0, 0x10, 0x10, // 4
            0xF0, 0x80, 0xF0, 0x10, 0xF0, // 5
            0xF0, 0x80, 0xF0, 0x90, 0xF0, // 6
            0xF0, 0x10, 0x20, 0x40, 0x40, // 7
            0xF0, 0x90, 0xF0, 0x90, 0xF0, // 8
            0xF0, 0x90, 0xF0, 0x10, 0xF0, // 9
            0xF0, 0x90, 0xF0, 0x90, 0x90, // A
            0xE0, 0x90, 0xE0, 0x90, 0xE0, // B
            0xF0, 0x80, 0x80, 0x80, 0xF0, // C
            0xE0, 0x90, 0x90, 0x90, 0xE0, // D
            0xF0, 0x80, 0xF0, 0x80, 0xF0, // E
            0xF0, 0x80, 0xF0, 0x80, 0x80, // F
        ];
        proof {
            assert(font@ =~= font_table());
        }
        let ghost s0 = self@;
        let mut k: usize = 0;
        while k < 80
            invariant
                self@.mem.len() == MEMSIZE,
                font@ == font_table(),
                k <= 80,
                self@ == (State { mem: self@.mem, ..s0 }),
                forall|j: int|
                    0 <= j < MEMSIZE && !(FONT_POS_START <= j < FONT_POS_START + k)
                        ==> self@.mem[j] == s0.mem[j],
                forall|t: int| 0 <= t < k ==> self@.mem[FONT_POS_START + t] == font_table()[t],
            decreases 80 - k,
        {
            self.memory.set(FONT_POS_START + k, font[k]);
            k += 1;
        }
    }

    /// Copy the program bytes into memory starting at PROG_POS_START; the
    /// rest of the machine is untouched.
    pub fn load_prog(&mut self, prog: Vec<u8>)
        requires
            old(self)@.mem.len() == MEMSIZE,
            prog@.len() <= MEMSIZE - PROG_POS_START,
        ensures
            final(self)@ == (State { mem: final(self)@.mem, ..old(self)@ }),
            final(self)@.mem.len() == MEMSIZE,
            forall|j: int|
                0 <= j < MEMSIZE && !(PROG_POS_START <= j < PROG_POS_START + prog@.len())
                    ==> final(self)@.mem[j] == old(self)@.mem[j],
            forall|t: int|
                0 <= t < prog@.len() ==> final(self)@.mem[PROG_POS_START + t] == prog@[t],
    {
        let ghost s0 = self@;
        let base: usize = PROG_POS_START as usize;
        let mut k: usize = 0;
        while k < prog.len()
            invariant
                self@.mem.len() == MEMSIZE,
                base == PROG_POS_START as int,
                prog@.len() <= MEMSIZE - PROG_POS_START,
                k <= prog@.len(),
                self@ == (State { mem: self@.mem, ..s0 }),
                forall|j: int|
                    0 <= j < MEMSIZE && !(PROG_POS_START <= j < PROG_POS_START + k)
                        ==> self@.mem[j] == s0.mem[j],
                forall|t: int| 0 <= t < k ==> self@.mem[PROG_POS_START + t] == prog@[t],
            decreases prog@.len() - k,
        {
            self.memory.set(base + k, prog[k]);
            k += 1;
        }
    }

    /// Decrement the delay timer by one, stopping at zero; nothing else
    /// changes. Meant to be driven at a fixed 60 Hz.
    pub fn decrement_delay_timer(&mut self)
        ensures
            final(self)@ == (State {
                delay: (if old(self)@.delay > 0 { (old(self)@.delay - 1) as u8 } else { 0u8 }),
                ..old(self)@
            }),
    {
        if self.delay_timer > 0 {
            self.delay_timer = self.delay_timer - 1;
        }
    }

    /// Decrement the sound timer by one, stopping at zero; nothing else
    /// changes. Meant to be driven at a fixed 60 Hz.
    pub fn decrement_sound_timer(&mut self)
        ensures
            final(self)@ == (State {
                sound: (if old(self)@.sound > 0 { (old(self)@.sound - 1) as u8 } else { 0u8 }),
                ..old(self)@
            }),
    {
        if self.sound_timer > 0 {
            self.sound_timer = self.sound_timer - 1;
        }
    }

    /// One 60 Hz tick: decrement both timers, each stopping at zero.
    pub fn tick_timers(&mut self)
        ensures
            final(self)@ == (State {
                delay: (if old(self)@.delay > 0 { (old(self)@.delay - 1) as u8 } else { 0u8 }),
                sound: (if old(self)@.sound > 0 { (old(self)@.sound - 1) as u8 } else { 0u8 }),
                ..old(self)@
            }),
    {
        self.decrement_delay_timer();
        self.decrement_sound_timer();
    }

    /// Record that key `key` went down or up. The core never polls a device:
    /// this is the only way key state enters the machine.
    pub fn set_key_state(&mut self, key: u8, pressed: bool)
        requires
            key < 16,
            old(self)@.keys.len() == 16,
        ensures
            final(self)@ == (State {
                keys: old(self)@.keys.update(key as int, pressed),
                ..old(self)@
            }),
    {
        self.keymap.set(key as usize, pressed);
    }

    /// Whether the key numbered `target` is currently held down.
    pub fn is_key_pressed(&self, target: u8) -> (pressed: bool)
        requires
            target < 16,
            self@.keys.len() == 16,
        ensures
            pressed == self@.keys[target as int],
    {
        self.keymap[target as usize]
    }

    /// The framebuffer, row-major, for the driver to render.
    pub fn framebuffer(&self) -> (fb: &Vec<bool>)
        ensures
            fb@ == self@.fb,
    {
        &self.display_buffer
    }

    /// The delay timer, read-only.
    pub fn delay_timer(&self) -> (t: u8)
        ensures
            t == self@.delay,
    {
        self.delay_timer
    }

    /// The sound timer, read-only.
    pub fn sound_timer(&self) -> (t: u8)
        ensures
            t == self@.sound,
    {
        self.sound_timer
    }

    /// Set the program counter.
    pub fn set_pc(&mut self, value: u16)
        requires
            value < MEMSIZE,
        ensures
            final(self)@ == (State { pc: value, ..old(self)@ }),
    {
        self.pc = value;
    }

    /// Write one memory byte at a checked address.
    pub fn set_byte(&mut self, addr: u16, val: u8)
        requires
            old(self)@.mem.len() == MEMSIZE,
            addr < MEMSIZE,
        ensures
            final(self)@ == (State {
                mem: old(self)@.mem.update(addr as int, val),
                ..old(self)@
            }),
    {
        self.memory.set(addr as usize, val);
    }

    /// Read one memory byte at a checked address.
    pub fn get_addr(&self, addr: u16) -> (val: u8)
        requires
            self@.mem.len() == MEMSIZE,
            addr < MEMSIZE,
        ensures
            val == self@.mem[addr as int],
    {
        self.memory[addr as usize]
    }

    /// Turn every framebuffer cell off.
    pub fn clear_screen(&mut self)
        requires
            old(self)@.fb.len() == FB_LEN,
        ensures
            final(self)@ == (State { fb: all_off(), ..old(self)@ }),
    {
        fb_clear(&mut self.display_buffer);
    }

    /// Xor `val` into the pixel at (x, y), clipping positions outside the
    /// grid; report whether a lit pixel was turned off.
    pub fn set_pixel(&mut self, x: u8, y: u8, val: bool) -> (erased: bool)
        requires
            old(self)@.fb.len() == FB_LEN,
        ensures
            final(self)@ == (State { fb: final(self)@.fb, ..old(self)@ }),
            final(self)@.fb.len() == FB_LEN,
            x < SCREEN_WIDTH && y < SCREEN_HEIGHT ==> (final(self)@.fb == old(self)@.fb.update(
                fb_index(x as int, y as int),
                old(self)@.fb[fb_index(x as int, y as int)] ^ val,
            ) && erased == (old(self)@.fb[fb_index(x as int, y as int)] && val)),
            !(x < SCREEN_WIDTH && y < SCREEN_HEIGHT) ==> final(self)@.fb == old(self)@.fb
                && !erased,
    {
        fb_set_pixel(&mut self.display_buffer, x, y, val)
    }

    /// Xor-blit a sprite whose anchor wraps to (x % 64, y % 32), clipping
    /// the pixels that stick out past the edges; report whether any lit
    /// pixel was turned off.
    pub fn draw_sprite_to_display_buffer(&mut self, x: u8, y: u8, sprite: Vec<u8>) -> (erased: bool)
        requires
            old(self)@.fb.len() == FB_LEN,
            sprite@.len() <= 32,
        ensures
            final(self)@ == (State { fb: final(self)@.fb, ..old(self)@ }),
            final(self)@.fb == blit(
                old(self)@.fb,
                (x % SCREEN_WIDTH) as int,
                (y % SCREEN_HEIGHT) as int,
                sprite@,
            ),
            erased == blit_collision(
                old(self)@.fb,
                (x % SCREEN_WIDTH) as int,
                (y % SCREEN_HEIGHT) as int,
                sprite@,
            ),
    {
        fb_draw_sprite(&mut self.display_buffer, x, y, &sprite)
    }

    /// Runtime check of the structural state invariant, for drivers that
    /// assemble or adjust a machine by hand.
    pub fn is_well_formed(&self) -> (b: bool)
        ensures
            b == self@.wf(),
    {
        if self.memory.len() != MEMSIZE {
            return false;
        }
        if self.registers.len() != 16 {
            return false;
        }
        if self.stack.len() != 16 {
            return false;
        }
        if self.stackpointer > 16 {
            return false;
        }
        if self.keymap.len() != 16 {
            return false;
        }
        if self.display_buffer.len() != FB_LEN {
            return false;
        }
        if self.pc as usize >= MEMSIZE {
            return false;
        }
        if self.i as usize >= MEMSIZE {
            return false;
        }
        let mut k: usize = 0;
        while k < 16
            invariant
                self@.stack.len() == 16,
                k <= 16,
                forall|t: int| 0 <= t < k ==> self@.stack[t] < MEMSIZE,
            decreases 16 - k,
        {
            if self.stack[k] as usize >= MEMSIZE {
                return false;
            }
            k += 1;
        }
        match self.waiting_for_key {
            Some(x) => x < 16,
            None => true,
        }
    }

    /// The lowest-numbered key currently held down, if any.
    fn first_pressed_key(&self) -> (r: Option<u8>)
        requires
            self@.keys.len() == 16,
        ensures
            r == first_pressed(self@.keys),
    {
        let mut k: usize = 0;
        while k < 16
            invariant
                self@.keys.len() == 16,
                k <= 16,
                first_pressed(self@.keys) == first_pressed_from(self@.keys, k as int),
            decreases 16 - k,
        {
            if self.keymap[k] {
                return Some(k as u8);
            }
            k += 1;
        }
        None
    }

    /// Execute one already-decoded instruction, exactly as `spec_exec_inst`
    /// describes; on a fatal condition the machine is untouched.
    fn apply_inst(&mut self, inst: Inst, rnd: u8) -> (r: Result<(), ChipError>)
        requires
            old(self)@.wf(),
            inst.wf(),
        ensures
            final(self)@.wf(),
            (match spec_exec_inst(old(self)@, inst, rnd) {
                Ok(s2) => r == Ok::<(), ChipError>(()) && final(self)@ == s2,
                Err(e) => r == Err::<(), ChipError>(e) && final(self)@ == old(self)@,
            }),
    {
        let ghost s0 = self@;
        match inst {
            Inst::Empty => {
                self.pc = (self.pc + 2) % 4096;
            }
            Inst::Cls => {
                fb_clear(&mut self.display_buffer);
                self.pc = (self.pc + 2) % 4096;
            }
            Inst::Ret => {
                if self.stackpointer == 0 {
                    return Err(ChipError::StackUnderflow);
                }
                self.stackpointer = self.stackpointer - 1;
                self.pc = self.stack[self.stackpointer as usize];
            }
            Inst::Jmp { addr } => {
                self.pc = addr;
            }
            Inst::Call { addr } => {
                if self.stackpointer >= 16 {
                    return Err(ChipError::StackOverflow);
                }
                self.stack.set(self.stackpointer as usize, (self.pc + 2) % 4096);
                self.stackpointer = self.stackpointer + 1;
                self.pc = addr;
            }
            Inst::SV { vx, byte } => {
                if self.registers[vx as usize] == byte {
                    self.pc = (self.pc + 4) % 4096;
                } else {
                    self.pc = (self.pc + 2) % 4096;
                }
            }
            Inst::SnV { vx, byte } => {
                if self.registers[vx as usize] != byte {
                    self.pc = (self.pc + 4) % 4096;
                } else {
                    self.pc = (self.pc + 2) % 4096;
                }
            }
            Inst::SR { vx, vy } => {
                if self.registers[vx as usize] == self.registers[vy as usize] {
                    self.pc = (self.pc + 4) % 4096;
                } else {
                    self.pc = (self.pc + 2) % 4096;
                }
            }
            Inst::LdV { vx, byte } => {
                self.registers.set(vx as usize, byte);
                self.pc = (self.pc + 2) % 4096;
            }
            Inst::AddV { vx, byte } => {
                let sum: u16 = self.registers[vx as usize] as u16 + byte as u16;
                self.registers.set(vx as usize, (sum % 256) as u8);
                self.pc = (self.pc + 2) % 4096;
            }
            Inst::LdR { vx, vy } => {
                let v: u8 = self.registers[vy as usize];
                self.registers.set(vx as usize, v);
                self.pc = (self.pc + 2) % 4096;
            }
            Inst::OrR { vx, vy } => {
                let v: u8 = self.registers[vx as usize] | self.registers[vy as usize];
                self.registers.set(vx as usize, v);
                if self.quirks.vf_reset {
                    self.registers.set(15, 0);
                }
                self.pc = (self.pc + 2) % 4096;
            }
            Inst::AndR { vx, vy } => {
                let v: u8 = self.registers[vx as usize] & self.registers[vy as usize];
                self.registers.set(vx as usize, v);
                if self.quirks.vf_reset {
                    self.registers.set(15, 0);
                }
                self.pc = (self.pc + 2) % 4096;
            }
            Inst::XorR { vx, vy } => {
                let v: u8 = self.registers[vx as usize] ^ self.registers[vy as usize];
                self.registers.set(vx as usize, v);
                if self.quirks.vf_reset {
                    self.registers.set(15, 0);
                }
                self.pc = (self.pc + 2) % 4096;
            }
            Inst::AddR { vx, vy } => {
                let sum: u16 = self.registers[vx as usize] as u16
                    + self.registers[vy as usize] as u16;
                self.registers.set(vx as usize, (sum % 256) as u8);
                self.registers.set(15, if sum > 255 { 1 } else { 0 });
                self.pc = (self.pc + 2) % 4096;
            }
            Inst::SubR { vx, vy } => {
                let rx: u8 = self.registers[vx as usize];
                let ry: u8 = self.registers[vy as usize];
                let diff: u16 = (rx as u16 + 256 - ry as u16) % 256;
                self.registers.set(vx as usize, diff as u8);
                self.registers.set(15, if rx >= ry { 1 } else { 0 });
                self.pc = (self.pc + 2) % 4096;
            }
            Inst::Shr { vx, vy } => {
                let src: u8 = if self.quirks.shift_vy {
                    self.registers[vy as usize]
                } else {
                    self.registers[vx as usize]
                };
                self.registers.set(vx as usize, src / 2);
                self.registers.set(15, src % 2);
                self.pc = (self.pc + 2) % 4096;
            }
            Inst::SubnR { vx, vy } => {
                let rx: u8 = self.registers[vx as usize];
                let ry: u8 = self.registers[vy as usize];
                let diff: u16 = (ry as u16 + 256 - rx as u16) % 256;
                self.registers.set(vx as usize, diff as u8);
                self.registers.set(15, if ry >= rx { 1 } else { 0 });
                self.pc = (self.pc + 2) % 4096;
            }
            Inst::Shl { vx, vy } => {
                let src: u8 = if self.quirks.shift_vy {
                    self.registers[vy as usize]
                } else {
                    self.registers[vx as usize]
                };
                self.registers.set(vx as usize, ((src as u16 * 2) % 256) as u8);
                self.registers.set(15, src / 128);
                self.pc = (self.pc + 2) % 4096;
            }
            Inst::SnR { vx, vy } => {
                if self.registers[vx as usize] != self.registers[vy as usize] {
                    self.pc = (self.pc + 4) % 4096;
                } else {
                    self.pc = (self.pc + 2) % 4096;
                }
            }
            Inst::LdI { addr } => {
                self.i = addr;
                self.pc = (self.pc + 2) % 4096;
            }
            Inst::JpV0 { addr } => {
                self.pc = (addr + self.registers[0] as u16) % 4096;
            }
            Inst::Rnd { vx, byte } => {
                self.registers.set(vx as usize, rnd & byte);
                self.pc = (self.pc + 2) % 4096;
            }
            Inst::Disp { vx, vy, n } => {
                let mut sprite: Vec<u8> = Vec::new();
                let mut k: usize = 0;
                while k < n as usize
                    invariant
                        self@ == s0,
                        s0.wf(),
                        n < 16,
                        k <= n,
                        sprite@.len() == k,
                        forall|t: int|
                            0 <= t < k ==> sprite@[t] == s0.mem[wrap_addr(s0.i + t) as int],
                    decreases n - k,
                {
                    sprite.push(self.memory[((self.i + k as u16) % 4096) as usize]);
                    k += 1;
                }
                proof {
                    assert(sprite@ =~= sprite_rows(s0.mem, s0.i, n as int));
                }
                let px: u8 = self.registers[vx as usize];
                let py: u8 = self.registers[vy as usize];
                let coll: bool = fb_draw_sprite(&mut self.display_buffer, px, py, &sprite);
                self.registers.set(15, if coll { 1 } else { 0 });
                self.pc = (self.pc + 2) % 4096;
            }
            Inst::SKp { vx } => {
                let v: u8 = self.registers[vx as usize];
                let pressed: bool = if v < 16 {
                    self.keymap[v as usize]
                } else {
                    false
                };
                if pressed {
                    self.pc = (self.pc + 4) % 4096;
                } else {
                    self.pc = (self.pc + 2) % 4096;
                }
            }
            Inst::SKnp { vx } => {
                let v: u8 = self.registers[vx as usize];
                let pressed: bool = if v < 16 {
                    self.keymap[v as usize]
                } else {
                    false
                };
                if !pressed {
                    self.pc = (self.pc + 4) % 4096;
                } else {
                    self.pc = (self.pc + 2) % 4096;
                }
            }
            Inst::LdRDt { vx } => {
                let v: u8 = self.delay_timer;
                self.registers.set(vx as usize, v);
                self.pc = (self.pc + 2) % 4096;
            }
            Inst::LdRKp { vx } => {
                self.waiting_for_key = Some(vx);
            }
            Inst::LdDtR { vx } => {
                self.delay_timer = self.registers[vx as usize];
                self.pc = (self.pc + 2) % 4096;
            }
            Inst::LdStR { vx } => {
                self.sound_timer = self.registers[vx as usize];
                self.pc = (self.pc + 2) % 4096;
            }
            Inst::AddRI { vx } => {
                self.i = (self.i + self.registers[vx as usize] as u16) % 4096;
                self.pc = (self.pc + 2) % 4096;
            }
            Inst::LdIF { vx } => {
                let v: u8 = self.registers[vx as usize];
                if v > 15 {
                    return Err(ChipError::InvalidFontDigit);
                }
                self.i = FONT_POS_START as u16 + 5 * v as u16;
                self.pc = (self.pc + 2) % 4096;
            }
            Inst::LdBCDR { vx } => {
                let v: u8 = self.registers[vx as usize];
                let i0: u16 = self.i;
                self.memory.set(i0 as usize, v / 100);
                self.memory.set(((i0 + 1) % 4096) as usize, (v / 10) % 10);
                self.memory.set(((i0 + 2) % 4096) as usize, v % 10);
                self.pc = (self.pc + 2) % 4096;
            }
            Inst::LdIR { vx } => {
                let i0: u16 = self.i;
                let mut k: usize = 0;
                while k < vx as usize + 1
                    invariant
                        s0.wf(),
                        vx < 16,
                        k <= vx + 1,
                        i0 == s0.i,
                        self@ == (State { mem: self@.mem, ..s0 }),
                        self@.mem.len() == MEMSIZE,
                        self@.mem == store_regs(s0.mem, s0.regs, s0.i, k as int - 1),
                    decreases vx + 1 - k,
                {
                    let v: u8 = self.registers[k];
                    self.memory.set(((i0 + k as u16) % 4096) as usize, v);
                    k += 1;
                }
                if self.quirks.increment_i {
                    self.i = (i0 + vx as u16 + 1) % 4096;
                }
                self.pc = (self.pc + 2) % 4096;
            }
            Inst::LdRI { vx } => {
                let i0: u16 = self.i;
                let mut k: usize = 0;
                while k < vx as usize + 1
                    invariant
                        s0.wf(),
                        vx < 16,
                        k <= vx + 1,
                        i0 == s0.i,
                        self@ == (State { regs: self@.regs, ..s0 }),
                        self@.regs.len() == 16,
                        self@.regs == load_regs(s0.mem, s0.regs, s0.i, k as int - 1),
                    decreases vx + 1 - k,
                {
                    let v: u8 = self.memory[((i0 + k as u16) % 4096) as usize];
                    self.registers.set(k, v);
                    k += 1;
                }
                if self.quirks.increment_i {
                    self.i = (i0 + vx as u16 + 1) % 4096;
                }
                self.pc = (self.pc + 2) % 4096;
            }
        }
        Ok(())
    }

    /// One driver-initiated step with the random byte supplied by the
    /// caller: fetch, decode and execute one instruction (or poll the
    /// keypad while suspended on key-wait), exactly as `spec_step`
    /// describes. Supplying the byte makes execution deterministic and
    /// replayable.
    pub fn step_with_random(&mut self, rnd: u8) -> (r: Result<(), ChipError>)
        requires
            old(self)@.wf(),
        ensures
            final(self)@.wf(),
            step_matches(old(self)@, rnd, final(self)@, r),
    {
        match self.waiting_for_key {
            Some(x) => {
                match self.first_pressed_key() {
                    Some(k) => {
                        self.registers.set(x as usize, k);
                        self.waiting_for_key = None;
                        self.pc = (self.pc + 2) % 4096;
                    }
                    None => {}
                }
                Ok(())
            }
            None => {
                let hi: u8 = self.memory[self.pc as usize];
                let lo: u8 = self.memory[((self.pc + 1) % 4096) as usize];
                let opcode: u16 = ((hi as u16) << 8u16) | (lo as u16);
                proof {
                    assert(opcode == spec_fetch(self@));
                }
                match hex_to_inst(opcode) {
                    Ok(inst) => self.apply_inst(inst, rnd),
                    Err(e) => Err(e),
                }
            }
        }
    }

    /// One driver-initiated step, drawing the random byte from the
    /// process-wide generator: whatever byte came out, the machine moved as
    /// `spec_step` describes for that byte.
    pub fn execute_inst(&mut self) -> (r: Result<(), ChipError>)
        requires
            old(self)@.wf(),
        ensures
            final(self)@.wf(),
            exists|rnd: u8| #[trigger] step_matches(old(self)@, rnd, final(self)@, r),
    {
        let rnd: u8 = random_byte();
        let r = self.step_with_random(rnd);
        proof {
            assert(step_matches(old(self)@, rnd, self@, r));
        }
        r
    }
}

/// Relies on rand::thread_rng and Rng::gen_range for one uniformly random
/// byte. Nothing is assumed about the value: every caller must be correct
/// for all 256 outcomes.
#[verifier::external_body]
fn random_byte() -> u8 {
    rand::Rng::gen_range(&mut rand::thread_rng(), 0..=255u8)
}

/// ADD Vx, Vy: the destination becomes (Vx + Vy) mod 256 and VF becomes 1
/// exactly when Vx + Vy exceeds 255. The claim about the destination is
/// stated for Vx other than VF itself, whose value the flag write overrides.
pub proof fn lemma_add_register(s: State, vx: u8, vy: u8, rnd: u8)
    requires
        s.wf(),
        vx < 16,
        vy < 16,
    ensures
        (spec_exec_inst(s, Inst::AddR { vx, vy }, rnd) matches Ok(s2)
            && s2.regs[15] == (if s.regs[vx as int] + s.regs[vy as int] > 255 { 1u8 } else { 0u8 })
            && (vx != 15 ==> s2.regs[vx as int] == (s.regs[vx as int] + s.regs[vy as int]) % 256)
            && s2.pc == wrap_addr(s.pc + 2)),
{
}

/// SUB Vx, Vy: the destination becomes (Vx - Vy) mod 256 and VF becomes 1
/// exactly when Vx >= Vy before the operation (no borrow). The claim about
/// the destination is stated for Vx other than VF itself, whose value the
/// flag write overrides.
pub proof fn lemma_sub_register(s: State, vx: u8, vy: u8, rnd: u8)
    requires
        s.wf(),
        vx < 16,
        vy < 16,
    ensures
        (spec_exec_inst(s, Inst::SubR { vx, vy }, rnd) matches Ok(s2)
            && s2.regs[15] == (if s.regs[vx as int] >= s.regs[vy as int] { 1u8 } else { 0u8 })
            && (vx != 15 ==> s2.regs[vx as int] == (s.regs[vx as int] - s.regs[vy as int]) % 256)
            && s2.pc == wrap_addr(s.pc + 2)),
{
    let a = s.regs[vx as int] as int;
    let b = s.regs[vy as int] as int;
    assert((a + 256 - b) % 256 == (a - b) % 256) by {
        vstd::arithmetic::div_mod::lemma_mod_add_multiples_vanish(a - b, 256);
    }
}

/// CALL pushes the address of the following instruction and jumps; RET,
/// executed later from any state that still holds that stack slot and
/// depth, restores the program counter to that following instruction and
/// the stack pointer to its pre-call value. Taking the intermediate state
/// as arbitrary covers a whole subroutine body that leaves the caller's
/// slot alone.
pub proof fn lemma_call_then_ret(s: State, addr: u16, t: State, rnd1: u8, rnd2: u8)
    requires
        s.wf(),
        addr < 4096,
        s.sp < 16,
        t.wf(),
        t.sp == s.sp + 1,
        t.stack[s.sp as int] == wrap_addr(s.pc + 2),
    ensures
        (spec_exec_inst(s, Inst::Call { addr }, rnd1) matches Ok(s1)
            && s1.pc == addr
            && s1.sp == s.sp + 1
            && s1.stack[s.sp as int] == wrap_addr(s.pc + 2)),
        (spec_exec_inst(t, Inst::Ret, rnd2) matches Ok(t2)
            && t2.pc == wrap_addr(s.pc + 2)
            && t2.sp == s.sp),
{
}

} // verus!
