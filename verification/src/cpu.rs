//! The CPU: architectural state and the execution step.
//!
//! One step fetches the big-endian 16-bit word at the program counter,
//! decodes it, advances the program counter by 2, and applies the operation's
//! effect. A step that faults (an undefined encoding, an out-of-range memory
//! access, or an operation that needs an external peripheral) reports a
//! structured fault and leaves the whole state unchanged.

use vstd::prelude::*;

use crate::instruction::Instruction;
use crate::instruction::decode_spec;

verus! {

/// Number of addressable bytes of memory.
pub const MEM_SIZE: usize = 4096;

/// Number of general-purpose registers.
pub const NUM_REGS: usize = 16;

/// Number of return-address slots in the call stack.
pub const STACK_SLOTS: usize = 16;

/// Address where the font sprites for the digits 0 to 0xf begin.
pub const FONT_BASE_ADDRESS: u16 = 0x100;

/// Bytes per font sprite: each glyph is 8 by 5 pixels.
pub const FONT_CHAR_SIZE: u16 = 5;

/// Address at which programs are loaded, the initial program counter.
pub const START_ADDRESS: u16 = 0x200;

/// The mathematical value of a `Stack`: its sixteen slots and the stack
/// pointer.
#[verifier::ext_equal]
pub ghost struct StackView {
    pub slots: Seq<u16>,
    pub sp: int,
}

impl StackView {
    /// Sixteen slots, with the stack pointer inside them.
    pub open spec fn wf(self) -> bool {
        self.slots.len() == 16 && 0 <= self.sp < 16
    }

    /// Effect of a push: the value lands in the slot the pointer names, and
    /// the pointer moves up, wrapping from 15 back to 0.
    pub open spec fn push_spec(self, value: u16) -> StackView {
        StackView { slots: self.slots.update(self.sp, value), sp: (self.sp + 1) % 16 }
    }

    /// Effect of a pop: the pointer moves down, wrapping from 0 back to 15,
    /// and the value in the slot it then names comes out. The slots are not
    /// changed.
    pub open spec fn pop_spec(self) -> (StackView, u16) {
        let sp2: int = if self.sp == 0 {
            15
        } else {
            self.sp - 1
        };
        (StackView { slots: self.slots, sp: sp2 }, self.slots[sp2])
    }
}

/// A fixed ring of sixteen 16-bit return addresses with a wrapping stack
/// pointer. Push and pop are the only mutators; on overflow or underflow the
/// pointer wraps instead of failing, so a seventeenth push silently
/// overwrites the oldest slot. This matches the legacy fixed-capacity design.
pub struct Stack {
    slots: Vec<u16>,
    sp: usize,
}

impl View for Stack {
    type V = StackView;

    closed spec fn view(&self) -> StackView {
        StackView { slots: self.slots@, sp: self.sp as int }
    }
}

impl Stack {
    /// A stack with every slot zero and the pointer at the bottom.
    pub fn new() -> (s: Stack)
        ensures
            s@.wf(),
            s@.sp == 0,
            forall|i: int| 0 <= i < 16 ==> s@.slots[i] == 0u16,
    {
        let mut slots: Vec<u16> = Vec::new();
        let mut i: usize = 0;
        while i < STACK_SLOTS
            invariant
                i <= STACK_SLOTS,
                slots@.len() == i,
                forall|j: int| 0 <= j < i ==> slots@[j] == 0u16,
            decreases STACK_SLOTS - i,
        {
            slots.push(0);
            i += 1;
        }
        Stack { slots, sp: 0 }
    }

    /// Push a value, wrapping the stack pointer past the last slot.
    pub fn push(&mut self, data: u16)
        requires
            old(self)@.wf(),
        ensures
            final(self)@.wf(),
            final(self)@ == old(self)@.push_spec(data),
    {
        self.slots.set(self.sp, data);
        self.sp += 1;
        if self.sp > 15 {
            self.sp = 0;
        }
    }

    /// Pop a value, wrapping the stack pointer below the first slot.
    pub fn pop(&mut self) -> (r: u16)
        requires
            old(self)@.wf(),
        ensures
            final(self)@.wf(),
            final(self)@ == old(self)@.pop_spec().0,
            r == old(self)@.pop_spec().1,
    {
        if self.sp == 0 {
            self.sp = 15;
        } else {
            self.sp -= 1;
        }
        self.slots[self.sp]
    }

    /// The current stack pointer.
    pub fn sp(&self) -> (r: usize)
        ensures
            r == self@.sp,
    {
        self.sp
    }
}

/// The state after pushing each value of `values` in order.
pub open spec fn multi_push(s: StackView, values: Seq<u16>) -> StackView
    decreases values.len(),
{
    if values.len() == 0 {
        s
    } else {
        multi_push(s, values.drop_last()).push_spec(values.last())
    }
}

/// The state after `n` pops, paired with the popped values in pop order.
pub open spec fn multi_pop(s: StackView, n: nat) -> (StackView, Seq<u16>)
    decreases n,
{
    if n == 0 {
        (s, Seq::empty())
    } else {
        let first = s.pop_spec();
        let rest = multi_pop(first.0, (n - 1) as nat);
        (rest.0, seq![first.1] + rest.1)
    }
}

/// Pushing at most sixteen values onto a stack whose pointer is at the bottom
/// fills the slots from slot 0 upward in push order, leaves the higher slots
/// alone, and wraps the pointer back to 0 exactly when all sixteen slots were
/// filled.
proof fn lemma_multi_push_from_bottom(s: StackView, values: Seq<u16>)
    requires
        s.wf(),
        s.sp == 0,
        values.len() <= 16,
    ensures
        multi_push(s, values).wf(),
        multi_push(s, values).sp == (if values.len() == 16 {
            0int
        } else {
            values.len() as int
        }),
        forall|k: int| 0 <= k < values.len() ==> multi_push(s, values).slots[k] == values[k],
        forall|k: int| values.len() <= k < 16 ==> multi_push(s, values).slots[k] == s.slots[k],
    decreases values.len(),
{
    if values.len() > 0 {
        lemma_multi_push_from_bottom(s, values.drop_last());
        let prev = multi_push(s, values.drop_last());
        let full = prev.push_spec(values.last());
        assert(forall|k: int|
            0 <= k < values.len() - 1 ==> values.drop_last()[k] == values[k]);
        assert(full.slots[values.len() - 1] == values.last());
        assert(forall|k: int|
            0 <= k < values.len() - 1 ==> full.slots[k] == prev.slots[k]);
    }
}

/// Popping `n` times from a well-formed stack does not change the slots and
/// hands out, in order, the slot below the pointer, then the one below that,
/// and so on; a pointer at 0 wraps to slot 15 first.
proof fn lemma_multi_pop_values(s: StackView, n: nat)
    requires
        s.wf(),
        n <= (if s.sp == 0 {
            16int
        } else {
            s.sp
        }),
    ensures
        multi_pop(s, n).0.wf(),
        multi_pop(s, n).0.slots == s.slots,
        multi_pop(s, n).0.sp == ({
            let top: int = if s.sp == 0 {
                16
            } else {
                s.sp
            };
            if n == 0 {
                s.sp
            } else {
                top - n
            }
        }),
        multi_pop(s, n).1.len() == n,
        forall|i: int|
            0 <= i < n ==> multi_pop(s, n).1[i] == s.slots[(if s.sp == 0 {
                16int
            } else {
                s.sp
            }) - 1 - i],
    decreases n,
{
    if n > 0 {
        lemma_multi_pop_values(s.pop_spec().0, (n - 1) as nat);
    }
}

/// The stack is last-in first-out, and wraps at its fixed capacity: pushing
/// sixteen values onto a stack whose pointer is at the bottom and then
/// popping sixteen times returns exactly those values in reverse push order
/// and restores the stack pointer; one further push wraps around and
/// overwrites slot 0, the oldest entry.
pub proof fn lemma_stack_lifo(s: StackView, values: Seq<u16>, extra: u16)
    requires
        s.wf(),
        s.sp == 0,
        values.len() == 16,
    ensures
        multi_push(s, values).sp == 0,
        multi_pop(multi_push(s, values), 16).1 == values.reverse(),
        multi_pop(multi_push(s, values), 16).0.sp == 0,
        multi_push(s, values).push_spec(extra).slots[0] == extra,
        multi_push(s, values).push_spec(extra).sp == 1,
{
    lemma_multi_push_from_bottom(s, values);
    lemma_multi_pop_values(multi_push(s, values), 16);
    assert(multi_pop(multi_push(s, values), 16).1 =~= values.reverse());
}

/// What kind of fault ended a step.
#[derive(Clone, Copy, Debug, PartialEq, Eq, Structural)]
pub enum FaultKind {
    /// The fetched word matches no defined instruction encoding.
    InvalidInstruction,
    /// A computed address (the program counter at fetch, or an index-register
    /// range) falls outside the 4096-byte memory.
    MemoryOutOfBounds,
    /// The instruction delegates to an external collaborator (display,
    /// keyboard or entropy source) that this core does not own.
    NeedsPeripheral,
}

/// A fault is fatal to its step: the step reports what went wrong, at which
/// program counter, and on which instruction word, and leaves the state
/// exactly as it was. The word is 0 when the fetch itself was out of bounds.
#[derive(Clone, Copy, Debug, PartialEq, Eq, Structural)]
pub struct Fault {
    pub kind: FaultKind,
    pub pc: u16,
    pub word: u16,
}

/// Shorthand for building a `Fault` in specifications.
pub open spec fn fault(kind: FaultKind, pc: u16, word: u16) -> Fault {
    Fault { kind, pc, word }
}

/// 8-bit addition with wraparound.
pub open spec fn wrap_add8(a: u8, b: u8) -> u8 {
    if a + b < 256 {
        (a + b) as u8
    } else {
        (a + b - 256) as u8
    }
}

/// 8-bit subtraction with wraparound.
pub open spec fn wrap_sub8(a: u8, b: u8) -> u8 {
    if a >= b {
        (a - b) as u8
    } else {
        (a + 256 - b) as u8
    }
}

/// 16-bit addition with wraparound.
pub open spec fn wrap_add16(a: u16, b: u16) -> u16 {
    if a + b < 65536 {
        (a + b) as u16
    } else {
        (a + b - 65536) as u16
    }
}

/// The mathematical value of a `Cpu`: every piece of architectural state.
#[verifier::ext_equal]
pub ghost struct CpuView {
    pub pc: u16,
    pub index: u16,
    pub reg: Seq<u8>,
    pub delay_timer: u8,
    pub sound_timer: u8,
    pub memory: Seq<u8>,
    pub stack: StackView,
}

impl CpuView {
    /// Sixteen registers, 4096 bytes of memory, and a well-formed stack.
    pub open spec fn wf(self) -> bool {
        self.reg.len() == 16 && self.memory.len() == 4096 && self.stack.wf()
    }

    /// The big-endian 16-bit word at the program counter: the byte at PC is
    /// the high byte, the byte at PC + 1 the low byte.
    pub open spec fn fetch_word(self) -> u16 {
        ((self.memory[self.pc as int] as u16) << 8) | (self.memory[self.pc as int + 1] as u16)
    }

    /// The effect of one decoded instruction on a state whose program counter
    /// has already been advanced past the instruction. `pc0` and `word` are
    /// the program counter and word of the instruction, used only to report
    /// faults.
    pub open spec fn apply_spec(self, instr: Instruction, pc0: u16, word: u16) -> Result<
        CpuView,
        Fault,
    > {
        match instr {
            Instruction::Cls => Err(fault(FaultKind::NeedsPeripheral, pc0, word)),
            Instruction::Ret => Ok(
                CpuView { pc: self.stack.pop_spec().1, stack: self.stack.pop_spec().0, ..self },
            ),
            Instruction::JpImm(a) => Ok(CpuView { pc: a, ..self }),
            Instruction::Call(a) => Ok(
                CpuView { pc: a, stack: self.stack.push_spec(self.pc), ..self },
            ),
            Instruction::SeImm(x, k) => Ok(
                CpuView {
                    pc: if self.reg[x as int] == k {
                        (self.pc + 2) as u16
                    } else {
                        self.pc
                    },
                    ..self
                },
            ),
            Instruction::SneImm(x, k) => Ok(
                CpuView {
                    pc: if self.reg[x as int] != k {
                        (self.pc + 2) as u16
                    } else {
                        self.pc
                    },
                    ..self
                },
            ),
            Instruction::SeReg(x, y) => Ok(
                CpuView {
                    pc: if self.reg[x as int] == self.reg[y as int] {
                        (self.pc + 2) as u16
                    } else {
                        self.pc
                    },
                    ..self
                },
            ),
            Instruction::LdImm(x, k) => Ok(CpuView { reg: self.reg.update(x as int, k), ..self }),
            Instruction::AddImm(x, k) => Ok(
                CpuView {
                    reg: self.reg.update(x as int, wrap_add8(self.reg[x as int], k)),
                    ..self
                },
            ),
            Instruction::LdReg(x, y) => Ok(
                CpuView { reg: self.reg.update(x as int, self.reg[y as int]), ..self },
            ),
            Instruction::OrReg(x, y) => Ok(
                CpuView {
                    reg: self.reg.update(x as int, self.reg[x as int] | self.reg[y as int]),
                    ..self
                },
            ),
            Instruction::AndReg(x, y) => Ok(
                CpuView {
                    reg: self.reg.update(x as int, self.reg[x as int] & self.reg[y as int]),
                    ..self
                },
            ),
            Instruction::XorReg(x, y) => Ok(
                CpuView {
                    reg: self.reg.update(x as int, self.reg[x as int] ^ self.reg[y as int]),
                    ..self
                },
            ),
            Instruction::AddReg(x, y) => Ok(
                CpuView {
                    reg: self.reg.update(
                        x as int,
                        wrap_add8(self.reg[x as int], self.reg[y as int]),
                    ).update(
                        15,
                        if self.reg[x as int] + self.reg[y as int] > 255 {
                            1u8
                        } else {
                            0u8
                        },
                    ),
                    ..self
                },
            ),
            Instruction::SubReg(x, y) => Ok(
                CpuView {
                    reg: self.reg.update(
                        x as int,
                        wrap_sub8(self.reg[x as int], self.reg[y as int]),
                    ).update(
                        15,
                        if self.reg[x as int] >= self.reg[y as int] {
                            1u8
                        } else {
                            0u8
                        },
                    ),
                    ..self
                },
            ),
            Instruction::Shr(x, _) => Ok(
                CpuView {
                    reg: self.reg.update(x as int, (self.reg[x as int] / 2) as u8).update(
                        15,
                        (self.reg[x as int] % 2) as u8,
                    ),
                    ..self
                },
            ),
            Instruction::Subn(x, y) => Ok(
                CpuView {
                    reg: self.reg.update(
                        x as int,
                        wrap_sub8(self.reg[y as int], self.reg[x as int]),
                    ).update(
                        15,
                        if self.reg[y as int] >= self.reg[x as int] {
                            1u8
                        } else {
                            0u8
                        },
                    ),
                    ..self
                },
            ),
            Instruction::Shl(x, _) => Ok(
                CpuView {
                    reg: self.reg.update(
                        x as int,
                        if 2 * self.reg[x as int] < 256 {
                            (2 * self.reg[x as int]) as u8
                        } else {
                            (2 * self.reg[x as int] - 256) as u8
                        },
                    ).update(
                        15,
                        if self.reg[x as int] >= 128 {
                            1u8
                        } else {
                            0u8
                        },
                    ),
                    ..self
                },
            ),
            Instruction::SneReg(x, y) => Ok(
                CpuView {
                    pc: if self.reg[x as int] != self.reg[y as int] {
                        (self.pc + 2) as u16
                    } else {
                        self.pc
                    },
                    ..self
                },
            ),
            Instruction::LdI(a) => Ok(CpuView { index: a, ..self }),
            Instruction::JpReg(a) => Ok(CpuView { pc: (a + self.reg[0]) as u16, ..self }),
            Instruction::Rnd(_, _) => Err(fault(FaultKind::NeedsPeripheral, pc0, word)),
            Instruction::Drw(_, _, _) => Err(fault(FaultKind::NeedsPeripheral, pc0, word)),
            Instruction::Skp(_) => Err(fault(FaultKind::NeedsPeripheral, pc0, word)),
            Instruction::Sknp(_) => Err(fault(FaultKind::NeedsPeripheral, pc0, word)),
            Instruction::LdRegDt(x) => Ok(
                CpuView { reg: self.reg.update(x as int, self.delay_timer), ..self },
            ),
            Instruction::LdRegK(_) => Err(fault(FaultKind::NeedsPeripheral, pc0, word)),
            Instruction::LdDtReg(x) => Ok(CpuView { delay_timer: self.reg[x as int], ..self }),
            Instruction::LdStReg(x) => Ok(CpuView { sound_timer: self.reg[x as int], ..self }),
            Instruction::AddI(x) => Ok(
                CpuView { index: wrap_add16(self.index, self.reg[x as int] as u16), ..self },
            ),
            Instruction::LdF(x) => Ok(
                CpuView {
                    index: (FONT_BASE_ADDRESS + self.reg[x as int] * FONT_CHAR_SIZE) as u16,
                    ..self
                },
            ),
            Instruction::LdB(x) => if self.index < 4094 {
                Ok(
                    CpuView {
                        memory: self.memory.update(
                            self.index as int,
                            (self.reg[x as int] / 100) as u8,
                        ).update(self.index as int + 1, ((self.reg[x as int] / 10) % 10) as u8)
                            .update(self.index as int + 2, (self.reg[x as int] % 10) as u8),
                        ..self
                    },
                )
            } else {
                Err(fault(FaultKind::MemoryOutOfBounds, pc0, word))
            },
            Instruction::LdMemReg(x) => if self.index + x <= 4095 {
                Ok(
                    CpuView {
                        memory: Seq::new(
                            4096,
                            |j: int|
                                if self.index <= j <= self.index + x {
                                    self.reg[j - self.index as int]
                                } else {
                                    self.memory[j]
                                },
                        ),
                        ..self
                    },
                )
            } else {
                Err(fault(FaultKind::MemoryOutOfBounds, pc0, word))
            },
            Instruction::LdRegMem(x) => if self.index + x <= 4095 {
                Ok(
                    CpuView {
                        reg: Seq::new(
                            16,
                            |j: int|
                                if 0 <= j <= x {
                                    self.memory[self.index as int + j]
                                } else {
                                    self.reg[j]
                                },
                        ),
                        ..self
                    },
                )
            } else {
                Err(fault(FaultKind::MemoryOutOfBounds, pc0, word))
            },
        }
    }

    /// One full execution step: fetch the word at PC, decode it, advance PC
    /// by 2, and apply the operation's effect. Returns the next state, or the
    /// fault that ended the step.
    pub open spec fn step_spec(self) -> Result<CpuView, Fault> {
        if self.pc as int + 1 >= 4096 {
            Err(fault(FaultKind::MemoryOutOfBounds, self.pc, 0))
        } else {
            let w = self.fetch_word();
            match decode_spec(w) {
                None => Err(fault(FaultKind::InvalidInstruction, self.pc, w)),
                Some(instr) => CpuView { pc: (self.pc + 2) as u16, ..self }.apply_spec(
                    instr,
                    self.pc,
                    w,
                ),
            }
        }
    }
}

/// Arithmetic flag behavior: the register-register add sets VF to 1 exactly
/// when the sum exceeds 255; the register-register subtract sets VF to 1
/// exactly when no borrow occurs, that is when Vx >= Vy before subtracting;
/// and each shift sets VF to the exact bit shifted out, the low bit for the
/// right shift and the high bit for the left shift. The flag is written
/// after the primary result, so it stands even when the destination is VF
/// itself.
pub proof fn lemma_arithmetic_flags(s: CpuView, pc0: u16, word: u16, x: u8, y: u8)
    requires
        s.wf(),
        x < 16,
        y < 16,
    ensures
        ({
            let r = s.apply_spec(Instruction::AddReg(x, y), pc0, word);
            r matches Ok(p) && p.reg[15] == (if s.reg[x as int] + s.reg[y as int] > 255 {
                1u8
            } else {
                0u8
            })
        }),
        ({
            let r = s.apply_spec(Instruction::SubReg(x, y), pc0, word);
            r matches Ok(p) && p.reg[15] == (if s.reg[x as int] >= s.reg[y as int] {
                1u8
            } else {
                0u8
            })
        }),
        ({
            let r = s.apply_spec(Instruction::Shr(x, y), pc0, word);
            r matches Ok(p) && p.reg[15] == (s.reg[x as int] % 2) as u8
        }),
        ({
            let r = s.apply_spec(Instruction::Shl(x, y), pc0, word);
            r matches Ok(p) && p.reg[15] == (s.reg[x as int] / 128) as u8
        }),
{
    assert(s.reg[x as int] / 128 == (if s.reg[x as int] >= 128 {
        1int
    } else {
        0int
    }));
}

/// Skip semantics: a skip-if-equal-immediate instruction advances the
/// program counter by 4 in total (2 for the fetch, 2 for the skip) exactly
/// when the register equals the immediate, and by 2 otherwise.
pub proof fn lemma_skip_se_imm(s: CpuView, x: u8, k: u8)
    requires
        s.wf(),
        s.pc + 1 < 4096,
        decode_spec(s.fetch_word()) == Some(Instruction::SeImm(x, k)),
    ensures
        ({
            let r = s.step_spec();
            r matches Ok(p) && p.pc == (if s.reg[x as int] == k {
                s.pc + 4
            } else {
                s.pc + 2
            })
        }),
{
    crate::instruction::lemma_decode_wf(s.fetch_word());
}

/// A vector of `n` zero bytes.
fn zeroed_bytes(n: usize) -> (v: Vec<u8>)
    ensures
        v@.len() == n,
        forall|i: int| 0 <= i < n ==> v@[i] == 0u8,
{
    let mut v: Vec<u8> = Vec::new();
    let mut i: usize = 0;
    while i < n
        invariant
            i <= n,
            v@.len() == i,
            forall|j: int| 0 <= j < i ==> v@[j] == 0u8,
        decreases n - i,
    {
        v.push(0);
        i += 1;
    }
    v
}

/// Copy registers 0 through `x` into memory at `base` through `base + x`,
/// leaving every other byte as it was.
fn copy_regs_to_mem(mem: &mut Vec<u8>, reg: &Vec<u8>, base: usize, x: usize)
    requires
        old(mem)@.len() == 4096,
        reg@.len() == 16,
        x <= 15,
        base + x <= 4095,
    ensures
        final(mem)@.len() == 4096,
        forall|j: int|
            0 <= j < 4096 ==> final(mem)@[j] == (if base <= j <= base + x {
                reg@[j - base]
            } else {
                old(mem)@[j]
            }),
{
    let mut i: usize = 0;
    while i <= x
        invariant
            i <= x + 1,
            x <= 15,
            base + x <= 4095,
            mem@.len() == 4096,
            reg@.len() == 16,
            forall|j: int|
                0 <= j < 4096 ==> mem@[j] == (if base <= j < base + i {
                    reg@[j - base]
                } else {
                    old(mem)@[j]
                }),
        decreases x + 1 - i,
    {
        mem.set(base + i, reg[i]);
        i += 1;
    }
}

/// Fill registers 0 through `x` from memory at `base` through `base + x`,
/// leaving the remaining registers as they were.
fn copy_mem_to_regs(reg: &mut Vec<u8>, mem: &Vec<u8>, base: usize, x: usize)
    requires
        old(reg)@.len() == 16,
        mem@.len() == 4096,
        x <= 15,
        base + x <= 4095,
    ensures
        final(reg)@.len() == 16,
        forall|j: int|
            0 <= j < 16 ==> final(reg)@[j] == (if j <= x {
                mem@[base + j]
            } else {
                old(reg)@[j]
            }),
{
    let mut i: usize = 0;
    while i <= x
        invariant
            i <= x + 1,
            x <= 15,
            base + x <= 4095,
            reg@.len() == 16,
            mem@.len() == 4096,
            forall|j: int|
                0 <= j < 16 ==> reg@[j] == (if 0 <= j < i {
                    mem@[base + j]
                } else {
                    old(reg)@[j]
                }),
        decreases x + 1 - i,
    {
        reg.set(i, mem[base + i]);
        i += 1;
    }
}

/// The CHIP-8 CPU: program counter, index register, sixteen 8-bit registers,
/// two timers, 4096 bytes of memory, and the call stack. One instance owns
/// its state exclusively; independent machines use independent instances.
pub struct Cpu {
    /// Program counter; only the low 12 bits are architecturally meaningful,
    /// and it is deliberately not masked on increment.
    pc: u16,
    /// Index register, a memory pointer; low 12 bits meaningful.
    index: u16,
    /// General-purpose registers V0 through VF. VF doubles as the
    /// carry/borrow/shift flag.
    reg: Vec<u8>,
    /// Delay timer, decremented at a fixed rate by an external driver.
    delay_timer: u8,
    /// Sound timer, decremented at a fixed rate by an external driver.
    sound_timer: u8,
    /// Random access memory.
    memory: Vec<u8>,
    /// Call stack of return addresses.
    stack: Stack,
}

impl View for Cpu {
    type V = CpuView;

    closed spec fn view(&self) -> CpuView {
        CpuView {
            pc: self.pc,
            index: self.index,
            reg: self.reg@,
            delay_timer: self.delay_timer,
            sound_timer: self.sound_timer,
            memory: self.memory@,
            stack: self.stack@,
        }
    }
}

impl Cpu {
    /// A machine with zeroed registers, timers, memory and stack, and the
    /// program counter at the load address. The program loader is expected
    /// to fill memory before the first step.
    pub fn new() -> (cpu: Cpu)
        ensures
            cpu@.wf(),
            cpu@.pc == START_ADDRESS,
            cpu@.index == 0,
            cpu@.delay_timer == 0,
            cpu@.sound_timer == 0,
            forall|i: int| 0 <= i < 16 ==> cpu@.reg[i] == 0u8,
            forall|i: int| 0 <= i < 4096 ==> cpu@.memory[i] == 0u8,
            cpu@.stack.sp == 0,
            forall|i: int| 0 <= i < 16 ==> cpu@.stack.slots[i] == 0u16,
    {
        Cpu {
            pc: START_ADDRESS,
            index: 0,
            reg: zeroed_bytes(NUM_REGS),
            delay_timer: 0,
            sound_timer: 0,
            memory: zeroed_bytes(MEM_SIZE),
            stack: Stack::new(),
        }
    }

    /// Run one instruction: fetch at PC, decode, advance PC by 2, apply the
    /// effect. On a fault nothing is changed, the program counter included.
    pub fn cycle(&mut self) -> (r: Result<(), Fault>)
        requires
            old(self)@.wf(),
        ensures
            final(self)@.wf(),
            (match old(self)@.step_spec() {
                Ok(post) => r is Ok && final(self)@ == post,
                Err(f) => r == Err::<(), Fault>(f) && final(self)@ == old(self)@,
            }),
    {
        if self.pc >= 4095 {
            return Err(Fault { kind: FaultKind::MemoryOutOfBounds, pc: self.pc, word: 0 });
        }
        let pc0 = self.pc;
        let hi = self.memory[self.pc as usize];
        let lo = self.memory[self.pc as usize + 1];
        let word: u16 = ((hi as u16) << 8) | (lo as u16);
        let instr = match Instruction::decode(word) {
            Ok(instr) => instr,
            Err(_) => {
                return Err(Fault { kind: FaultKind::InvalidInstruction, pc: pc0, word });
            },
        };
        self.pc += 2;
        match instr {
            Instruction::Cls | Instruction::Rnd(_, _) | Instruction::Drw(_, _, _)
            | Instruction::Skp(_) | Instruction::Sknp(_) | Instruction::LdRegK(_) => {
                self.pc = pc0;
                Err(Fault { kind: FaultKind::NeedsPeripheral, pc: pc0, word })
            },
            Instruction::Ret => {
                let a = self.stack.pop();
                self.pc = a;
                Ok(())
            },
            Instruction::JpImm(a) => {
                self.pc = a;
                Ok(())
            },
            Instruction::Call(a) => {
                let ret_addr = self.pc;
                self.stack.push(ret_addr);
                self.pc = a;
                Ok(())
            },
            Instruction::SeImm(x, k) => {
                if self.reg[x as usize] == k {
                    self.pc += 2;
                }
                Ok(())
            },
            Instruction::SneImm(x, k) => {
                if self.reg[x as usize] != k {
                    self.pc += 2;
                }
                Ok(())
            },
            Instruction::SeReg(x, y) => {
                if self.reg[x as usize] == self.reg[y as usize] {
                    self.pc += 2;
                }
                Ok(())
            },
            Instruction::SneReg(x, y) => {
                if self.reg[x as usize] != self.reg[y as usize] {
                    self.pc += 2;
                }
                Ok(())
            },
            Instruction::LdImm(x, k) => {
                self.reg.set(x as usize, k);
                Ok(())
            },
            Instruction::AddImm(x, k) => {
                let v = self.reg[x as usize];
                let sum: u16 = v as u16 + k as u16;
                let res: u8 = if sum < 256 {
                    sum as u8
                } else {
                    (sum - 256) as u8
                };
                self.reg.set(x as usize, res);
                Ok(())
            },
            Instruction::LdReg(x, y) => {
                let v = self.reg[y as usize];
                self.reg.set(x as usize, v);
                Ok(())
            },
            Instruction::OrReg(x, y) => {
                let v = self.reg[x as usize] | self.reg[y as usize];
                self.reg.set(x as usize, v);
                Ok(())
            },
            Instruction::AndReg(x, y) => {
                let v = self.reg[x as usize] & self.reg[y as usize];
                self.reg.set(x as usize, v);
                Ok(())
            },
            Instruction::XorReg(x, y) => {
                let v = self.reg[x as usize] ^ self.reg[y as usize];
                self.reg.set(x as usize, v);
                Ok(())
            },
            Instruction::AddReg(x, y) => {
                let a = self.reg[x as usize];
                let b = self.reg[y as usize];
                let sum: u16 = a as u16 + b as u16;
                let res: u8 = if sum < 256 {
                    sum as u8
                } else {
                    (sum - 256) as u8
                };
                let flag: u8 = if sum > 255 {
                    1
                } else {
                    0
                };
                self.reg.set(x as usize, res);
                self.reg.set(15, flag);
                Ok(())
            },
            Instruction::SubReg(x, y) => {
                let a = self.reg[x as usize];
                let b = self.reg[y as usize];
                let res: u8 = if a >= b {
                    a - b
                } else {
                    (a as u16 + 256 - b as u16) as u8
                };
                let flag: u8 = if a >= b {
                    1
                } else {
                    0
                };
                self.reg.set(x as usize, res);
                self.reg.set(15, flag);
                Ok(())
            },
            Instruction::Shr(x, _) => {
                let v = self.reg[x as usize];
                self.reg.set(x as usize, v / 2);
                self.reg.set(15, v % 2);
                Ok(())
            },
            Instruction::Subn(x, y) => {
                let a = self.reg[x as usize];
                let b = self.reg[y as usize];
                let res: u8 = if b >= a {
                    b - a
                } else {
                    (b as u16 + 256 - a as u16) as u8
                };
                let flag: u8 = if b >= a {
                    1
                } else {
                    0
                };
                self.reg.set(x as usize, res);
                self.reg.set(15, flag);
                Ok(())
            },
            Instruction::Shl(x, _) => {
                let v = self.reg[x as usize];
                let doubled: u16 = v as u16 * 2;
                let res: u8 = if doubled < 256 {
                    doubled as u8
                } else {
                    (doubled - 256) as u8
                };
                let flag: u8 = if v >= 128 {
                    1
                } else {
                    0
                };
                self.reg.set(x as usize, res);
                self.reg.set(15, flag);
                Ok(())
            },
            Instruction::LdI(a) => {
                self.index = a;
                Ok(())
            },
            Instruction::JpReg(a) => {
                self.pc = a + self.reg[0] as u16;
                Ok(())
            },
            Instruction::LdRegDt(x) => {
                let v = self.delay_timer;
                self.reg.set(x as usize, v);
                Ok(())
            },
            Instruction::LdDtReg(x) => {
                self.delay_timer = self.reg[x as usize];
                Ok(())
            },
            Instruction::LdStReg(x) => {
                self.sound_timer = self.reg[x as usize];
                Ok(())
            },
            Instruction::AddI(x) => {
                let s: u32 = self.index as u32 + self.reg[x as usize] as u32;
                self.index = if s < 65536 {
                    s as u16
                } else {
                    (s - 65536) as u16
                };
                Ok(())
            },
            Instruction::LdF(x) => {
                self.index = FONT_BASE_ADDRESS + self.reg[x as usize] as u16 * FONT_CHAR_SIZE;
                Ok(())
            },
            Instruction::LdB(x) => {
                if self.index >= 4094 {
                    self.pc = pc0;
                    return Err(Fault { kind: FaultKind::MemoryOutOfBounds, pc: pc0, word });
                }
                let v = self.reg[x as usize];
                let i = self.index as usize;
                self.memory.set(i, v / 100);
                self.memory.set(i + 1, (v / 10) % 10);
                self.memory.set(i + 2, v % 10);
                Ok(())
            },
            Instruction::LdMemReg(x) => {
                if self.index as usize + x as usize > 4095 {
                    self.pc = pc0;
                    return Err(Fault { kind: FaultKind::MemoryOutOfBounds, pc: pc0, word });
                }
                let base = self.index as usize;
                copy_regs_to_mem(&mut self.memory, &self.reg, base, x as usize);
                Ok(())
            },
            Instruction::LdRegMem(x) => {
                if self.index as usize + x as usize > 4095 {
                    self.pc = pc0;
                    return Err(Fault { kind: FaultKind::MemoryOutOfBounds, pc: pc0, word });
                }
                let base = self.index as usize;
                copy_mem_to_regs(&mut self.reg, &self.memory, base, x as usize);
                Ok(())
            },
        }
    }

    /// The current program counter.
    pub fn pc(&self) -> (r: u16)
        ensures
            r == self@.pc,
    {
        self.pc
    }

    /// The current index register.
    pub fn index(&self) -> (r: u16)
        ensures
            r == self@.index,
    {
        self.index
    }

    /// Set the index register, as a program loader or host harness does.
    pub fn set_index(&mut self, addr: u16)
        requires
            old(self)@.wf(),
        ensures
            final(self)@.wf(),
            final(self)@ == (CpuView { index: addr, ..old(self)@ }),
    {
        self.index = addr;
    }

    /// The value of register `x`.
    pub fn read_reg(&self, x: u8) -> (r: u8)
        requires
            self@.wf(),
            x < 16,
        ensures
            r == self@.reg[x as int],
    {
        self.reg[x as usize]
    }

    /// Set register `x` to `value`.
    pub fn write_reg(&mut self, x: u8, value: u8)
        requires
            old(self)@.wf(),
            x < 16,
        ensures
            final(self)@.wf(),
            final(self)@ == (CpuView { reg: old(self)@.reg.update(x as int, value), ..old(self)@ }),
    {
        self.reg.set(x as usize, value);
    }

    /// The byte at memory address `addr`.
    pub fn read_mem(&self, addr: u16) -> (r: u8)
        requires
            self@.wf(),
            addr < 4096,
        ensures
            r == self@.memory[addr as int],
    {
        self.memory[addr as usize]
    }

    /// Set the byte at memory address `addr`, as a program loader does.
    pub fn write_mem(&mut self, addr: u16, value: u8)
        requires
            old(self)@.wf(),
            addr < 4096,
        ensures
            final(self)@.wf(),
            final(self)@ == (CpuView {
                memory: old(self)@.memory.update(addr as int, value),
                ..old(self)@
            }),
    {
        self.memory.set(addr as usize, value);
    }

    /// The current delay timer value.
    pub fn delay_timer(&self) -> (r: u8)
        ensures
            r == self@.delay_timer,
    {
        self.delay_timer
    }

    /// The current sound timer value.
    pub fn sound_timer(&self) -> (r: u8)
        ensures
            r == self@.sound_timer,
    {
        self.sound_timer
    }

    /// The call stack's current stack pointer.
    pub fn stack_sp(&self) -> (r: usize)
        ensures
            r == self@.stack.sp,
    {
        self.stack.sp()
    }
}

} // verus!
